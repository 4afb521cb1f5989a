//! The repulsion bell: the player rings it, it knocks nearby enemies away, and a bell rung
//! in a direction pushes the player the other way instead.
use crate::animation::SpriteAnimation;
use crate::movement::{Direction2, Knockback, KnockbackPush, KNOCKBACK_TIME_NS};
use crate::timer::{fresh_view, tick_view, GameTimer, TimerMode};
use vstd::prelude::*;

verus! {

/// How long a bell rings: 0.2 s, as bevy's `Duration::from_secs_f32(0.2)` gives it.
pub const BELL_TIME_NS: u64 = 200_000_003;

/// How long each frame of the bell's animation is shown: 0.2 s / 10, as bevy's
/// `Duration::from_secs_f32(0.02)` gives it.
pub const BELL_FRAME_TIME_NS: u64 = 20_000_000;

/// How many frames the bell's animation has.
pub const BELL_FRAMES: usize = 10;

/// The direction a bell is rung in; `None` for a bell rung in place.
#[derive(Clone, Copy, Debug, PartialEq, Eq, Structural)]
pub struct BellDirection {
    pub direction: Option<Direction2>,
}

/// The request to ring the bell.
#[derive(Clone, Copy, Debug, PartialEq, Eq, Structural)]
pub struct ActivateBell {
    pub direction: BellDirection,
}

impl ActivateBell {
    /// A bell rung in place.
    pub fn default() -> (a: ActivateBell)
        ensures
            a.direction.direction is None,
    {
        ActivateBell { direction: BellDirection { direction: None } }
    }

    /// A bell rung in `direction`.
    pub fn direction(direction: Direction2) -> (a: ActivateBell)
        ensures
            a.direction.direction == Some(direction),
    {
        ActivateBell { direction: BellDirection { direction: Some(direction) } }
    }
}

/// How long a rung bell lasts.
pub struct BellTimer {
    pub timer: GameTimer,
}

impl BellTimer {
    /// A bell timer of 0.2 s.
    pub fn new() -> (b: BellTimer)
        ensures
            b.timer@ == fresh_view(BELL_TIME_NS as nat, false),
    {
        BellTimer { timer: GameTimer::new(BELL_TIME_NS, TimerMode::Once) }
    }

    /// One frame of a rung bell: the timer advances by `delta_ns`; the result says whether
    /// the bell is over (and is to be despawned).
    pub fn advance(&mut self, delta_ns: u64) -> (over: bool)
        ensures
            final(self).timer@ == tick_view(old(self).timer@, delta_ns as nat),
            over == final(self).timer@.finished,
    {
        self.timer.tick(delta_ns);
        self.timer.is_finished()
    }
}

/// The animation of a rung bell: ten frames of 0.02 s, spread over the time the bell rings.
pub fn bell_animation() -> (a: SpriteAnimation)
    ensures
        a.frames == BELL_FRAMES,
        a.timer@ == fresh_view(BELL_FRAME_TIME_NS as nat, true),
{
    SpriteAnimation::new(BELL_FRAMES, BELL_FRAME_TIME_NS)
}

/// Whether a bell that touches an enemy knocks it away: a bell rung in place does, a
/// directional one does not.
pub fn bell_hits_enemy(bell: &BellDirection) -> (b: bool)
    ensures
        b == (bell.direction is None),
{
    bell.direction.is_none()
}

/// The knockback that a directional bell gives the player: a push against the direction
/// it was rung in. A bell rung in place gives none.
pub fn bell_recoil(bell: &BellDirection) -> (k: Option<Knockback>)
    ensures
        bell.direction is None ==> k is None,
        bell.direction matches Some(d) ==> (k matches Some(kb) && kb.push == KnockbackPush::Recoil(d)
            && kb.timer@ == fresh_view(KNOCKBACK_TIME_NS as nat, false)),
{
    match bell.direction {
        Some(dir) => Some(Knockback::new(KnockbackPush::Recoil(dir))),
        None => None,
    }
}

} // verus!
