//! Decision logic of a small 2D platformer: timers, movement, animation, the player's
//! reactions, the repulsion bell and the enemies' behaviour tasks.
pub mod timer;
pub mod movement;
pub mod animation;
pub mod powers;
pub mod player;
pub mod ai;
pub mod physics;
pub mod laws;
