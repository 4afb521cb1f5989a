//! The player: how the keys move it and ring the bell, and how it reacts to being hit.
use crate::movement::{CoyoteTimer, Direction2, HorizontalSide, Knockback, KnockbackPush, KNOCKBACK_TIME_NS};
use crate::powers::ActivateBell;
use crate::timer::{fresh_view, status_advance, tick_view, GameTimer, TimerMode};
use vstd::prelude::*;

verus! {

/// Upward speed of a jump.
pub const PLAYER_JUMP_SPEED: i32 = 255;

/// Upward speed that a jump is cut down to when the jump key is released early.
pub const PLAYER_JUMP_CUT_SPEED: i32 = 190;

/// Horizontal speed of the player.
pub const PLAYER_SPEED: i32 = 90;

/// How long the player shows that it is hurt: 0.1 s, as bevy's
/// `Duration::from_secs_f32(0.1)` gives it.
pub const HURT_TIME_NS: u64 = 100_000_001;

/// How long the player cannot be hurt again after a hit: 0.8 s, as bevy's
/// `Duration::from_secs_f32(0.8)` gives it.
pub const INVINCIBLE_TIME_NS: u64 = 800_000_012;

/// What a frame does to a status that lasts for a while.
#[derive(Clone, Copy, Debug, PartialEq, Eq, Structural)]
pub enum StatusStep {
    /// The status is over and is to be removed.
    Expired,
    /// The status goes on.
    Running,
}

/// The player shows that it was hurt.
pub struct HurtState {
    pub timer: GameTimer,
}

impl HurtState {
    /// A hurt state of 0.1 s.
    pub fn new() -> (h: HurtState)
        ensures
            h.timer@ == fresh_view(HURT_TIME_NS as nat, false),
    {
        HurtState { timer: GameTimer::new(HURT_TIME_NS, TimerMode::Once) }
    }

    /// One frame: a finished state expires, otherwise its timer advances by `delta_ns`.
    pub fn advance(&mut self, delta_ns: u64) -> (step: StatusStep)
        ensures
            old(self).timer@.finished ==> step == StatusStep::Expired && final(self).timer@
                == old(self).timer@,
            !old(self).timer@.finished ==> step == StatusStep::Running && final(self).timer@
                == tick_view(old(self).timer@, delta_ns as nat),
            final(self).timer@ == status_advance(old(self).timer@, delta_ns as nat),
    {
        if self.timer.is_finished() {
            return StatusStep::Expired;
        }
        self.timer.tick(delta_ns);
        StatusStep::Running
    }
}

/// The player cannot be hurt for a while.
pub struct Invincible {
    pub timer: GameTimer,
}

impl Invincible {
    /// Invincibility for 0.8 s.
    pub fn new() -> (i: Invincible)
        ensures
            i.timer@ == fresh_view(INVINCIBLE_TIME_NS as nat, false),
    {
        Invincible { timer: GameTimer::new(INVINCIBLE_TIME_NS, TimerMode::Once) }
    }

    /// One frame: finished invincibility expires (the sprite is shown fully again),
    /// otherwise its timer advances by `delta_ns` and the sprite flickers.
    pub fn advance(&mut self, delta_ns: u64) -> (step: StatusStep)
        ensures
            old(self).timer@.finished ==> step == StatusStep::Expired && final(self).timer@
                == old(self).timer@,
            !old(self).timer@.finished ==> step == StatusStep::Running && final(self).timer@
                == tick_view(old(self).timer@, delta_ns as nat),
            final(self).timer@ == status_advance(old(self).timer@, delta_ns as nat),
    {
        if self.timer.is_finished() {
            return StatusStep::Expired;
        }
        self.timer.tick(delta_ns);
        StatusStep::Running
    }
}

/// Whether an invincible player is shown dimmed: the sprite flickers, dimmed in the even
/// phases (a phase is a fifteenth of a second of the invincibility).
pub fn flicker_dimmed(phase: u32) -> (b: bool)
    ensures
        b == (phase % 2 == 0),
{
    phase % 2 == 0
}

/// What being hit does to the player.
pub struct HitReaction {
    pub hurt: Option<HurtState>,
    pub knockback: Option<Knockback>,
    pub invincible: Option<Invincible>,
}

/// The reaction to a hit. An invincible player does not react. Otherwise it is hurt, and,
/// when what hit it can still be found (`away` is then the side away from it), it is
/// knocked back to that side and becomes invincible for a while.
pub fn hit_reaction(invincible: bool, away: Option<HorizontalSide>) -> (r: HitReaction)
    ensures
        invincible ==> r.hurt is None && r.knockback is None && r.invincible is None,
        !invincible ==> (r.hurt matches Some(h) && h.timer@ == fresh_view(
            HURT_TIME_NS as nat,
            false,
        )),
        !invincible && away is None ==> r.knockback is None && r.invincible is None,
        !invincible && away is Some ==> (r.knockback matches Some(k) && k.push
            == KnockbackPush::Away(away->0) && k.timer@ == fresh_view(KNOCKBACK_TIME_NS as nat, false)),
        !invincible && away is Some ==> (r.invincible matches Some(i) && i.timer@ == fresh_view(
            INVINCIBLE_TIME_NS as nat,
            false,
        )),
{
    if invincible {
        return HitReaction { hurt: None, knockback: None, invincible: None };
    }
    let hurt = Some(HurtState::new());
    match away {
        None => HitReaction { hurt, knockback: None, invincible: None },
        Some(side) => HitReaction {
            hurt,
            knockback: Some(Knockback::new(KnockbackPush::Away(side))),
            invincible: Some(Invincible::new()),
        },
    }
}

/// The horizontal direction the arrow keys ask for: right wins over left.
pub open spec fn input_change_spec(right_pressed: bool, left_pressed: bool) -> int {
    if right_pressed {
        1
    } else if left_pressed {
        -1
    } else {
        0
    }
}

/// The horizontal direction the arrow keys ask for, as -1, 0 or 1.
pub fn get_change_for_input(right_pressed: bool, left_pressed: bool) -> (c: i32)
    ensures
        c == input_change_spec(right_pressed, left_pressed),
{
    if right_pressed {
        1
    } else if left_pressed {
        -1
    } else {
        0
    }
}

/// The direction to ring the bell in: down when the down key is held on the ground,
/// otherwise none.
pub fn get_input_direction(down_pressed: bool, on_ground: bool) -> (d: Option<Direction2>)
    ensures
        d == (if down_pressed && on_ground {
            Some(Direction2::Down)
        } else {
            None
        }),
{
    if down_pressed && on_ground {
        Some(Direction2::Down)
    } else {
        None
    }
}

/// The keys that steer the player in one frame.
#[derive(Clone, Copy, Debug, PartialEq, Eq, Structural)]
pub struct PlayerInput {
    /// The bell key was just pressed.
    pub bell_just_pressed: bool,
    pub down_pressed: bool,
    pub right_pressed: bool,
    pub left_pressed: bool,
    /// The jump key was just pressed.
    pub jump_just_pressed: bool,
    /// The jump key was just released.
    pub jump_just_released: bool,
}

/// What the keys make the player do in one frame.
#[derive(Clone, Copy, Debug, PartialEq, Eq, Structural)]
pub struct PlayerControl {
    /// The bell to ring, if any.
    pub bell: Option<ActivateBell>,
    /// The horizontal direction to move in (-1, 0 or 1), times the player's speed.
    pub direction_x: i32,
    /// Cut the upward speed down to the jump-cut speed.
    pub cut_jump: bool,
    /// Jump: set the upward speed to the jump speed (after any cut).
    pub jump: bool,
}

/// Steers the player for one frame. `rising` says whether it moves upward. A jump uses up
/// the coyote time.
pub fn move_player(input: PlayerInput, on_ground: bool, rising: bool, coyote: &mut CoyoteTimer) -> (c:
    PlayerControl)
    ensures
        c.bell == (if input.bell_just_pressed {
            Some(
                if input.down_pressed && on_ground {
                    ActivateBell { direction: crate::powers::BellDirection { direction: Some(Direction2::Down) } }
                } else {
                    ActivateBell { direction: crate::powers::BellDirection { direction: None } }
                },
            )
        } else {
            None
        }),
        c.direction_x == input_change_spec(input.right_pressed, input.left_pressed),
        c.cut_jump == (input.jump_just_released && rising),
        c.jump == (old(coyote).can_jump_spec() && input.jump_just_pressed),
        c.jump ==> !final(coyote).can_jump_spec(),
        c.jump ==> final(coyote)@ == tick_view(old(coyote)@, old(coyote)@.remaining()),
        c.jump ==> final(coyote)@.elapsed == crate::movement::COYOTE_TIME_NS,
        !c.jump ==> *final(coyote) == *old(coyote),
{
    let bell = if input.bell_just_pressed {
        match get_input_direction(input.down_pressed, on_ground) {
            Some(direction) => Some(ActivateBell::direction(direction)),
            None => Some(ActivateBell::default()),
        }
    } else {
        None
    };
    let direction_x = get_change_for_input(input.right_pressed, input.left_pressed);
    let cut_jump = input.jump_just_released && rising;
    let jump = coyote.can_jump() && input.jump_just_pressed;
    if jump {
        coyote.end();
    }
    PlayerControl { bell, direction_x, cut_jump, jump }
}

} // verus!
