//! How characters move: their movement state, the markers that say whether they stand on
//! the ground or may not move, the coyote time that lets the player jump a moment after
//! leaving a ledge, and the knockback that pushes a character after a hit.
use crate::timer::{fresh_view, status_advance, tick_view, GameTimer, TimerMode, TimerView};
use vstd::prelude::*;

verus! {

/// How long after leaving the ground the player may still jump: 0.15 s, as bevy's
/// `Duration::from_secs_f32(0.15)` gives it.
pub const COYOTE_TIME_NS: u64 = 150_000_006;

/// How long a knockback pushes a character: 0.1 s, as bevy's
/// `Duration::from_secs_f32(0.1)` gives it.
pub const KNOCKBACK_TIME_NS: u64 = 100_000_001;

/// Horizontal speed of a knockback that pushes a character away from what hit it.
pub const KNOCKBACK_SPEED_X: i32 = 290;

/// Upward speed of such a knockback: a small upward pop.
pub const KNOCKBACK_SPEED_Y: i32 = 110;

/// Speed of the recoil that a directional bell gives the player.
pub const BELL_RECOIL_SPEED: i32 = 300;

#[derive(Clone, Copy, Debug, PartialEq, Eq, Structural)]
pub enum MovementState {
    Idle,
    Walking,
    Jumping,
}

impl Default for MovementState {
    fn default() -> (s: MovementState)
        ensures
            s == MovementState::Idle,
    {
        MovementState::Idle
    }
}

#[derive(Clone, Copy, Debug, PartialEq, Eq, Structural)]
pub enum FacingDirection {
    Right,
    Left,
}

impl Default for FacingDirection {
    fn default() -> (f: FacingDirection)
        ensures
            f == FacingDirection::Right,
    {
        FacingDirection::Right
    }
}

/// What to do with a marker component of an entity so that it matches a condition.
#[derive(Clone, Copy, Debug, PartialEq, Eq, Structural)]
pub enum MarkerChange {
    Keep,
    Insert,
    Remove,
}

/// Whether the marker is present after the change is carried out.
pub open spec fn marker_after(change: MarkerChange, present: bool) -> bool {
    match change {
        MarkerChange::Keep => present,
        MarkerChange::Insert => true,
        MarkerChange::Remove => false,
    }
}

/// The change that makes a marker's presence equal to `wanted`; nothing is done when it
/// already is.
pub open spec fn marker_change_spec(wanted: bool, present: bool) -> MarkerChange {
    if wanted == present {
        MarkerChange::Keep
    } else if wanted {
        MarkerChange::Insert
    } else {
        MarkerChange::Remove
    }
}

fn marker_change(wanted: bool, present: bool) -> (c: MarkerChange)
    ensures
        c == marker_change_spec(wanted, present),
{
    if wanted == present {
        MarkerChange::Keep
    } else if wanted {
        MarkerChange::Insert
    } else {
        MarkerChange::Remove
    }
}

/// The movement state a character is in: in the air it jumps, on the ground it walks
/// when it moves sideways and is idle otherwise.
pub open spec fn movement_state_spec(on_ground: bool, is_walking: bool) -> MovementState {
    if !on_ground {
        MovementState::Jumping
    } else if is_walking {
        MovementState::Walking
    } else {
        MovementState::Idle
    }
}

/// The movement state for a character that is (or is not) on the ground and moves
/// sideways faster than the walking threshold (or not).
pub fn next_movement_state(on_ground: bool, is_walking: bool) -> (s: MovementState)
    ensures
        s == movement_state_spec(on_ground, is_walking),
{
    match (on_ground, is_walking) {
        (false, _) => MovementState::Jumping,
        (true, true) => MovementState::Walking,
        (true, false) => MovementState::Idle,
    }
}

/// The new movement state to write, or `None` when the current one is already right
/// (so that the state is only written when it changes).
pub fn movement_state_update(current: MovementState, on_ground: bool, is_walking: bool) -> (r:
    Option<MovementState>)
    ensures
        r == (if current == movement_state_spec(on_ground, is_walking) {
            None
        } else {
            Some(movement_state_spec(on_ground, is_walking))
        }),
{
    let next = next_movement_state(on_ground, is_walking);
    if current != next {
        Some(next)
    } else {
        None
    }
}

/// Whether a character may not move: that is so while it is knocked back.
pub open spec fn cannot_move_spec(is_knockback: bool) -> bool {
    is_knockback
}

/// How to bring the `CannotMove` marker in line with the knockback.
pub fn cannot_move_change(is_knockback: bool, cannot_move: bool) -> (c: MarkerChange)
    ensures
        c == marker_change_spec(cannot_move_spec(is_knockback), cannot_move),
{
    let next_cannot_move = is_knockback;
    marker_change(next_cannot_move, cannot_move)
}

/// How to bring the `OnGround` marker in line with what the ground detector hit.
pub fn on_ground_change(has_ground_hits: bool, was_on_ground: bool) -> (c: MarkerChange)
    ensures
        c == marker_change_spec(has_ground_hits, was_on_ground),
{
    marker_change(has_ground_hits, was_on_ground)
}

impl Default for CoyoteTimer {
    /// A coyote timer that has already run out, so that it has to be started explicitly.
    fn default() -> (c: CoyoteTimer)
        ensures
            c@ == (TimerView {
                duration: COYOTE_TIME_NS as nat,
                elapsed: COYOTE_TIME_NS as nat,
                repeating: false,
                finished: true,
                times_finished: 1,
            }),
            !c.can_jump_spec(),
            c@.elapsed == COYOTE_TIME_NS,
    {
        let mut timer = GameTimer::new(COYOTE_TIME_NS, TimerMode::Once);
        let remaining = timer.remaining_ns();
        timer.tick(remaining);
        CoyoteTimer { timer }
    }

}

/// Lets the player jump for a short while after leaving the ground.
pub struct CoyoteTimer {
    timer: GameTimer,
}

impl View for CoyoteTimer {
    type V = TimerView;

    closed spec fn view(&self) -> TimerView {
        self.timer@
    }
}

impl CoyoteTimer {
    #[verifier::type_invariant]
    closed spec fn inv(self) -> bool {
        &&& self.timer@.duration == COYOTE_TIME_NS
        &&& !self.timer@.repeating
    }

    /// The player may jump while the coyote timer has not run out.
    pub open spec fn can_jump_spec(self) -> bool {
        !self@.finished
    }

    /// Ends the coyote time at once: the timer is ticked by what remains of it.
    pub fn end(&mut self)
        ensures
            final(self)@ == tick_view(old(self)@, old(self)@.remaining()),
            final(self)@.duration == COYOTE_TIME_NS,
            !final(self)@.repeating,
            !final(self).can_jump_spec(),
            final(self)@.elapsed == COYOTE_TIME_NS,
    {
        proof {
            use_type_invariant(&*self);
        }
        let remaining = self.timer.remaining_ns();
        let mut timer = self.timer;
        timer.tick(remaining);
        self.timer = timer;
    }

    /// Whether the player may still jump.
    pub fn can_jump(&self) -> (b: bool)
        ensures
            b == self.can_jump_spec(),
    {
        !self.timer.is_finished()
    }

    /// One frame of the coyote time: standing on the ground without rising starts it
    /// over, anything else lets `delta_ns` nanoseconds of it pass.
    pub fn update(&mut self, on_ground: bool, settled: bool, delta_ns: u64)
        ensures
            on_ground && settled ==> final(self)@ == fresh_view(COYOTE_TIME_NS as nat, false),
            !(on_ground && settled) ==> final(self)@ == tick_view(old(self)@, delta_ns as nat),
            on_ground && settled ==> final(self).can_jump_spec(),
            final(self)@.duration == COYOTE_TIME_NS,
            !final(self)@.repeating,
            !(on_ground && settled) ==> (final(self).can_jump_spec() == (old(self).can_jump_spec()
                && old(self)@.elapsed + delta_ns < COYOTE_TIME_NS)),
    {
        proof {
            use_type_invariant(&*self);
        }
        let mut timer = self.timer;
        if on_ground && settled {
            timer.reset();
        } else {
            timer.tick(delta_ns);
        }
        self.timer = timer;
    }
}

/// A horizontal side.
#[derive(Clone, Copy, Debug, PartialEq, Eq, Structural)]
pub enum HorizontalSide {
    Left,
    Right,
}

/// One of the four directions along the axes.
#[derive(Clone, Copy, Debug, PartialEq, Eq, Structural)]
pub enum Direction2 {
    Up,
    Down,
    Left,
    Right,
}

/// The unit vector of a direction.
pub open spec fn direction_vector(d: Direction2) -> (int, int) {
    match d {
        Direction2::Up => (0, 1),
        Direction2::Down => (0, -1),
        Direction2::Left => (-1, 0),
        Direction2::Right => (1, 0),
    }
}

/// Where a knockback pushes. The direction is fixed when the knockback starts (at the
/// hit, or when the bell is rung) and kept for as long as the knockback lasts; it is not
/// looked up again from where the hitter stands later.
#[derive(Clone, Copy, Debug, PartialEq, Eq, Structural)]
pub enum KnockbackPush {
    /// Away from what hit the character, to the given side, with a small upward pop.
    Away(HorizontalSide),
    /// Against the given direction (the recoil of a directional bell).
    Recoil(Direction2),
}

/// The velocity that a knockback gives.
pub open spec fn push_velocity(push: KnockbackPush) -> (int, int) {
    match push {
        KnockbackPush::Away(HorizontalSide::Left) => (-KNOCKBACK_SPEED_X, KNOCKBACK_SPEED_Y as int),
        KnockbackPush::Away(HorizontalSide::Right) => (
            KNOCKBACK_SPEED_X as int,
            KNOCKBACK_SPEED_Y as int,
        ),
        KnockbackPush::Recoil(d) => (
            -direction_vector(d).0 * BELL_RECOIL_SPEED,
            -direction_vector(d).1 * BELL_RECOIL_SPEED,
        ),
    }
}

/// The velocity of a knockback, as whole numbers.
pub fn knockback_velocity(push: KnockbackPush) -> (v: (i32, i32))
    ensures
        (v.0 as int, v.1 as int) == push_velocity(push),
{
    match push {
        KnockbackPush::Away(HorizontalSide::Left) => (-KNOCKBACK_SPEED_X, KNOCKBACK_SPEED_Y),
        KnockbackPush::Away(HorizontalSide::Right) => (KNOCKBACK_SPEED_X, KNOCKBACK_SPEED_Y),
        KnockbackPush::Recoil(Direction2::Up) => (0, -BELL_RECOIL_SPEED),
        KnockbackPush::Recoil(Direction2::Down) => (0, BELL_RECOIL_SPEED),
        KnockbackPush::Recoil(Direction2::Left) => (BELL_RECOIL_SPEED, 0),
        KnockbackPush::Recoil(Direction2::Right) => (-BELL_RECOIL_SPEED, 0),
    }
}

/// A character being knocked back for a short while.
pub struct Knockback {
    pub timer: GameTimer,
    pub push: KnockbackPush,
}

/// What a frame of knockback does.
#[derive(Clone, Copy, Debug, PartialEq, Eq, Structural)]
pub enum KnockbackStep {
    /// The knockback is over: stop moving sideways and drop the knockback.
    End,
    /// Keep the character moving at this velocity.
    Push(i32, i32),
}

impl Knockback {
    /// A knockback of 0.1 s.
    pub fn new(push: KnockbackPush) -> (k: Knockback)
        ensures
            k.timer@ == fresh_view(KNOCKBACK_TIME_NS as nat, false),
            k.push == push,
    {
        Knockback { timer: GameTimer::new(KNOCKBACK_TIME_NS, TimerMode::Once), push }
    }

    /// One frame of knockback: once the timer has finished the knockback ends, otherwise
    /// the timer advances by `delta_ns` and the character is pushed at the velocity of the
    /// push fixed when the knockback started.
    pub fn advance(&mut self, delta_ns: u64) -> (step: KnockbackStep)
        ensures
            old(self).timer@.finished ==> step == KnockbackStep::End && final(self).timer@
                == old(self).timer@,
            !old(self).timer@.finished ==> final(self).timer@ == tick_view(
                old(self).timer@,
                delta_ns as nat,
            ) && (step matches KnockbackStep::Push(x, y) && (x as int, y as int) == push_velocity(
                old(self).push,
            )),
            final(self).push == old(self).push,
            final(self).timer@ == status_advance(old(self).timer@, delta_ns as nat),
    {
        if self.timer.is_finished() {
            return KnockbackStep::End;
        }
        self.timer.tick(delta_ns);
        let (x, y) = knockback_velocity(self.push);
        KnockbackStep::Push(x, y)
    }
}

} // verus!
