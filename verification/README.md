# priest_game

The decision logic of a small 2D platformer built on bevy, verified with Verus.

- `src/` is the verified library: timers held as plain values and advanced by bevy's
  `Timer::tick`, movement states and markers, coyote time, knockback, sprite animation
  (clip lookup, facing, frame stepping), the player's controls and hit reactions, the
  repulsion bell, the enemies' task decisions, and `laws.rs` with the properties that hold
  across these functions.
- `app/` is the game itself: bevy plugins, systems and bundles that read the ECS world,
  call the library for every decision and write the results back. Positions, velocities
  and other floating-point work stay there.
- `tests/` runs the library on concrete values.
