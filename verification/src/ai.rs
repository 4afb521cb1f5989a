//! The decisions of the enemies' behaviour tasks: attacking, facing the target, and
//! chasing it.
use crate::movement::FacingDirection;
use crate::timer::{fresh_view, tick_view, GameTimer, TimerMode};
use vstd::prelude::*;

verus! {

#[verifier::external_type_specification]
#[verifier::external_body]
pub struct ExEntity(bevy::ecs::entity::Entity);

/// How far in front of an attacking enemy its hit box stands.
pub const ATTACK_REACH_X: i32 = 12;

/// The horizontal offset of an attack's hit box: in front of the attacker.
pub fn hitbox_offset_x(facing: FacingDirection) -> (x: i32)
    ensures
        x == (match facing {
            FacingDirection::Left => -ATTACK_REACH_X,
            FacingDirection::Right => ATTACK_REACH_X as int,
        }),
{
    match facing {
        FacingDirection::Left => -ATTACK_REACH_X,
        FacingDirection::Right => ATTACK_REACH_X,
    }
}

/// An attack in progress, with the hit box it spawned.
pub struct Attacking {
    pub timer: GameTimer,
    pub hitbox: bevy::ecs::entity::Entity,
}

impl Attacking {
    /// An attack of `duration_ns` nanoseconds with its hit box.
    pub fn new(duration_ns: u64, hitbox: bevy::ecs::entity::Entity) -> (a: Attacking)
        ensures
            a.timer@ == fresh_view(duration_ns as nat, false),
            a.hitbox == hitbox,
    {
        Attacking { timer: GameTimer::new(duration_ns, TimerMode::Once), hitbox }
    }

    /// One frame of the attack: its timer advances by `delta_ns`; the result says whether
    /// the attack is over (the hit box is then despawned and the task succeeds).
    pub fn advance(&mut self, delta_ns: u64) -> (over: bool)
        ensures
            final(self).timer@ == tick_view(old(self).timer@, delta_ns as nat),
            final(self).hitbox == old(self).hitbox,
            over == final(self).timer@.finished,
    {
        self.timer.tick(delta_ns);
        self.timer.is_finished()
    }
}

/// The side of a target: left when it stands strictly left of the mover, right otherwise.
pub open spec fn target_side_spec(target_is_left: bool) -> FacingDirection {
    if target_is_left {
        FacingDirection::Left
    } else {
        FacingDirection::Right
    }
}

/// The side on which the target stands.
pub fn target_side(target_is_left: bool) -> (f: FacingDirection)
    ensures
        f == target_side_spec(target_is_left),
{
    if target_is_left {
        FacingDirection::Left
    } else {
        FacingDirection::Right
    }
}

/// Turning toward the target: the new facing to write, or `None` when the mover already
/// faces it. The task then succeeds either way.
pub fn face_target(current: FacingDirection, target_is_left: bool) -> (r: Option<FacingDirection>)
    ensures
        r == (if current == target_side_spec(target_is_left) {
            None
        } else {
            Some(target_side_spec(target_is_left))
        }),
{
    let player_side = target_side(target_is_left);
    if current != player_side {
        Some(player_side)
    } else {
        None
    }
}

/// Whether the mover faces its target (the task succeeds when it does and fails
/// otherwise).
pub fn is_facing_target(target_is_left: bool, facing: FacingDirection) -> (b: bool)
    ensures
        b == (facing == target_side_spec(target_is_left)),
{
    target_side(target_is_left) == facing
}

/// What a chasing enemy does in one frame.
#[derive(Clone, Copy, Debug, PartialEq, Eq, Structural)]
pub enum ChaseStep {
    /// Stop moving; the chase task succeeds.
    Stop,
    /// Move in this direction at the enemy's speed.
    Move(FacingDirection),
}

/// One frame of a chase. `within_near` says whether the target is as near as the near
/// distance, `beyond_far` whether it is as far as the far distance, `target_is_right`
/// whether it stands strictly right of the enemy. Near or far, the enemy stops; in
/// between it moves toward the target.
pub fn chase_step(within_near: bool, beyond_far: bool, target_is_right: bool) -> (s: ChaseStep)
    ensures
        within_near || beyond_far ==> s == ChaseStep::Stop,
        !within_near && !beyond_far ==> s == ChaseStep::Move(
            if target_is_right {
                FacingDirection::Right
            } else {
                FacingDirection::Left
            },
        ),
{
    let direction = if target_is_right {
        FacingDirection::Right
    } else {
        FacingDirection::Left
    };
    if within_near {
        ChaseStep::Stop
    } else if beyond_far {
        ChaseStep::Stop
    } else {
        ChaseStep::Move(direction)
    }
}

/// The sign of the horizontal velocity of a chase step: -1, 0 or 1 times the speed.
pub fn chase_velocity_sign(step: ChaseStep) -> (v: i32)
    ensures
        v == (match step {
            ChaseStep::Stop => 0,
            ChaseStep::Move(FacingDirection::Left) => -1,
            ChaseStep::Move(FacingDirection::Right) => 1,
        }),
{
    match step {
        ChaseStep::Stop => 0,
        ChaseStep::Move(FacingDirection::Left) => -1,
        ChaseStep::Move(FacingDirection::Right) => 1,
    }
}

} // verus!
