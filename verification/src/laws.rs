//! Properties that hold across the library's functions and over every state.
use crate::animation::{animation_key_spec, facing_spec, next_frame_spec, AnimationKey};
use crate::movement::{
    direction_vector, marker_after, marker_change_spec, movement_state_spec, push_velocity,
    Direction2, FacingDirection, HorizontalSide, KnockbackPush, MarkerChange, BELL_RECOIL_SPEED,
};
use crate::timer::{fresh_view, status_advance, tick_view, TimerView};
use vstd::arithmetic::div_mod::{lemma_add_mod_noop, lemma_mod_bound, lemma_mod_self_0, lemma_small_mod};
use vstd::prelude::*;

verus! {

/// Carrying out the marker change makes the marker's presence equal to the wanted one,
/// and nothing is done exactly when it already is. (Ground detection and the
/// `CannotMove` marker both follow this.)
pub proof fn law_marker_change_matches(wanted: bool, present: bool)
    ensures
        marker_after(marker_change_spec(wanted, present), present) == wanted,
        (marker_change_spec(wanted, present) == MarkerChange::Keep) == (wanted == present),
{
}

/// A character that is not on the ground is jumping, whatever its speed; on the ground it
/// walks exactly when it moves sideways.
pub proof fn law_movement_state(on_ground: bool, is_walking: bool)
    ensures
        !on_ground ==> movement_state_spec(on_ground, is_walking)
            == crate::movement::MovementState::Jumping,
        on_ground ==> (movement_state_spec(on_ground, is_walking)
            == crate::movement::MovementState::Walking) == is_walking,
{
}

/// Updating the facing twice with the same inputs changes nothing the second time, and a
/// character that walks without being knocked back faces the way it moves.
pub proof fn law_facing_settles(
    current: FacingDirection,
    has_knockback: bool,
    is_walking: bool,
    moving_right: bool,
)
    ensures
        facing_spec(facing_spec(current, has_knockback, is_walking, moving_right), has_knockback, is_walking, moving_right)
            == facing_spec(current, has_knockback, is_walking, moving_right),
        !has_knockback && is_walking ==> (facing_spec(current, has_knockback, is_walking, moving_right)
            == FacingDirection::Right) == moving_right,
{
}

/// A tick keeps a timer well formed: the elapsed time stays within the duration, a
/// finished one-shot timer stands at its duration and finishes at most once per tick.
pub proof fn law_tick_keeps_timer_wf(t: TimerView, delta: nat)
    requires
        t.wf(),
    ensures
        tick_view(t, delta).wf(),
{
    let grown = t.elapsed + delta;
    if t.repeating && grown >= t.duration && t.duration > 0 {
        lemma_mod_bound(grown as int, t.duration as int);
    }
}

/// A finished one-shot timer stays finished, at its duration, however long it is ticked.
pub proof fn law_finished_one_shot_stays(t: TimerView, delta: nat)
    requires
        t.wf(),
        !t.repeating,
        t.finished,
    ensures
        tick_view(t, delta).finished,
        tick_view(t, delta).elapsed == t.duration,
{
}

/// An unfinished one-shot timer finishes in a tick exactly when the tick reaches its
/// duration; until then the time simply adds up.
pub proof fn law_one_shot_window(t: TimerView, delta: nat)
    requires
        t.wf(),
        !t.repeating,
        !t.finished,
    ensures
        tick_view(t, delta).finished == (t.elapsed + delta >= t.duration),
        t.elapsed + delta < t.duration ==> tick_view(t, delta).elapsed == t.elapsed + delta,
{
}

/// A fresh or reset timer is not finished and has nothing elapsed.
pub proof fn law_fresh_timer(duration: nat, repeating: bool)
    ensures
        !fresh_view(duration, repeating).finished,
        fresh_view(duration, repeating).elapsed == 0,
        fresh_view(duration, repeating).wf(),
{
}

/// Ticking by `a` and then by `b` leaves the same elapsed time, and the same finished
/// flag, as one tick by `a + b` (for a repeating timer the finished flag of the last tick
/// only says whether that tick reached the duration, so only the elapsed time is stated).
pub proof fn law_ticks_add_up(t: TimerView, a: nat, b: nat)
    requires
        t.wf(),
    ensures
        tick_view(tick_view(t, a), b).elapsed == tick_view(t, a + b).elapsed,
        !t.repeating ==> tick_view(tick_view(t, a), b).finished == tick_view(t, a + b).finished,
{
    if t.repeating && t.duration > 0 {
        let d = t.duration as int;
        let e = t.elapsed as int;
        if e + a >= d {
            lemma_mod_fold(e + a, b as int, d);
            lemma_mod_bound(e + a, d);
        }
    }
}

proof fn lemma_mod_fold(x: int, y: int, d: int)
    requires
        d > 0,
        x >= 0,
        y >= 0,
    ensures
        (x % d + y) % d == (x + y) % d,
        x % d + y < d ==> x % d + y == (x + y) % d,
{
    lemma_add_mod_noop(x, y, d);
    lemma_mod_bound(y, d);
    lemma_mod_bound(x, d);
    lemma_add_mod_noop(x % d, y, d);
    vstd::arithmetic::div_mod::lemma_mod_twice(x, d);
    if x % d + y < d {
        lemma_small_mod((x % d + y) as nat, d as nat);
    }
}

/// The frame a sprite moves to is always one of its frames (the first one when the clip
/// has none), and without a progress the last frame is followed by the first.
pub proof fn law_next_frame_in_range(index: nat, frames: nat, progress_frame: Option<nat>)
    ensures
        next_frame_spec(index, frames, progress_frame) < (if frames == 0 { 1 } else { frames }),
        frames > 0 ==> next_frame_spec((frames - 1) as nat, frames, None) == 0,
{
    let m: int = if frames == 0 { 1 } else { frames as int };
    lemma_mod_bound((index + 1) as int, m);
    if frames > 0 {
        lemma_mod_self_0(frames as int);
    }
}

/// A knockback away from a hit pushes toward its side and always a little upward.
pub proof fn law_knockback_away(side: HorizontalSide)
    ensures
        push_velocity(KnockbackPush::Away(side)).1 > 0,
        (push_velocity(KnockbackPush::Away(side)).0 > 0) == (side == HorizontalSide::Right),
        push_velocity(KnockbackPush::Away(side)).0 != 0,
{
}

/// The recoil of a directional bell pushes exactly against the direction it was rung in,
/// at the recoil speed.
pub proof fn law_recoil_opposes_bell(d: Direction2)
    ensures
        push_velocity(KnockbackPush::Recoil(d)).0 * direction_vector(d).0 + push_velocity(
            KnockbackPush::Recoil(d),
        ).1 * direction_vector(d).1 == -BELL_RECOIL_SPEED,
        push_velocity(KnockbackPush::Recoil(d)).0 == -BELL_RECOIL_SPEED * direction_vector(d).0,
        push_velocity(KnockbackPush::Recoil(d)).1 == -BELL_RECOIL_SPEED * direction_vector(d).1,
{
}

/// Setting the clip of a key makes that key look up exactly that clip and leaves every
/// other key as it was.
pub proof fn law_clip_insert_lookup<C>(
    m: Map<crate::animation::AnimationKey, C>,
    key: crate::animation::AnimationKey,
    clip: C,
    other: crate::animation::AnimationKey,
)
    ensures
        m.insert(key, clip).dom().contains(key),
        m.insert(key, clip)[key] == clip,
        other != key ==> m.insert(key, clip).dom().contains(other) == m.dom().contains(other),
        other != key && m.dom().contains(other) ==> m.insert(key, clip)[other] == m[other],
{
}

/// An invincible player's sprite alternates between dimmed and full from one flicker phase
/// to the next.
pub proof fn law_flicker_alternates(phase: nat)
    ensures
        (phase % 2 == 0) != ((phase + 1) % 2 == 0),
{
}

/// The total of a run of frame times.
pub open spec fn delta_sum(ds: Seq<nat>) -> nat
    decreases ds.len(),
{
    if ds.len() == 0 {
        0
    } else {
        delta_sum(ds.drop_last()) + ds.last()
    }
}

/// A timer after one tick per frame time.
pub open spec fn tick_run(t: TimerView, ds: Seq<nat>) -> TimerView
    decreases ds.len(),
{
    if ds.len() == 0 {
        t
    } else {
        tick_view(tick_run(t, ds.drop_last()), ds.last())
    }
}

/// The timer of a status (hurt, invincible, knockback) after one frame per frame time:
/// each frame expires the status if its timer has finished and ticks the timer otherwise.
pub open spec fn status_run(t: TimerView, ds: Seq<nat>) -> TimerView
    decreases ds.len(),
{
    if ds.len() == 0 {
        t
    } else {
        status_advance(status_run(t, ds.drop_last()), ds.last())
    }
}

/// Both ways of running a one-shot timer over frames agree on what matters: the duration
/// and mode stay, and the timer is unfinished with the total elapsed while that total is
/// below the duration, and finished at its duration once the total (of at least one frame)
/// reaches it.
proof fn lemma_runs(t: TimerView, ds: Seq<nat>)
    requires
        t.wf(),
        !t.repeating,
        !t.finished,
    ensures
        status_run(t, ds).duration == t.duration,
        !status_run(t, ds).repeating,
        t.elapsed + delta_sum(ds) < t.duration ==> !status_run(t, ds).finished
            && status_run(t, ds).elapsed == t.elapsed + delta_sum(ds),
        ds.len() > 0 && t.elapsed + delta_sum(ds) >= t.duration ==> status_run(t, ds).finished
            && status_run(t, ds).elapsed == t.duration,
        tick_run(t, ds).duration == t.duration,
        !tick_run(t, ds).repeating,
        t.elapsed + delta_sum(ds) < t.duration ==> !tick_run(t, ds).finished
            && tick_run(t, ds).elapsed == t.elapsed + delta_sum(ds),
        ds.len() > 0 && t.elapsed + delta_sum(ds) >= t.duration ==> tick_run(t, ds).finished
            && tick_run(t, ds).elapsed == t.duration,
    decreases ds.len(),
{
    if ds.len() > 0 {
        let p = ds.drop_last();
        lemma_runs(t, p);
        if p.len() == 0 {
            assert(status_run(t, p) == t);
            assert(tick_run(t, p) == t);
            assert(delta_sum(p) == 0);
        }
    }
}

proof fn lemma_sum_at_least_len(ds: Seq<nat>)
    requires
        forall|i: int| 0 <= i < ds.len() ==> ds[i] >= 1,
    ensures
        delta_sum(ds) >= ds.len(),
    decreases ds.len(),
{
    if ds.len() > 0 {
        let p = ds.drop_last();
        assert forall|i: int| 0 <= i < p.len() implies p[i] >= 1 by {
            assert(p[i] == ds[i]);
        }
        lemma_sum_at_least_len(p);
    }
}

/// A status that lasts `duration` (hurt state, invincibility, knockback) and is checked
/// and then ticked once per frame: while the frame times add up to less than its
/// duration its timer is unfinished and has exactly their total elapsed; once they add up
/// to the duration (in at least one frame) it is finished, so the next frame expires the
/// status. With frames of at least one nanosecond that happens after at most `duration`
/// frames (and at least one): no status lasts forever.
pub proof fn law_status_expires(duration: nat, ds: Seq<nat>)
    ensures
        delta_sum(ds) < duration ==> !status_run(fresh_view(duration, false), ds).finished
            && status_run(fresh_view(duration, false), ds).elapsed == delta_sum(ds),
        ds.len() > 0 && delta_sum(ds) >= duration ==> status_run(fresh_view(duration, false), ds).finished,
        (forall|i: int| 0 <= i < ds.len() ==> ds[i] >= 1) && ds.len() >= duration && ds.len() > 0
            ==> status_run(fresh_view(duration, false), ds).finished,
{
    lemma_runs(fresh_view(duration, false), ds);
    if forall|i: int| 0 <= i < ds.len() ==> ds[i] >= 1 {
        lemma_sum_at_least_len(ds);
    }
}

/// A one-shot timer that is ticked and then checked once per frame (the bell, an attack):
/// it is unfinished, with the total of the frame times elapsed, while that total is below
/// its duration, and finished from the frame at which the total reaches the duration on.
pub proof fn law_one_shot_ticks_finish(duration: nat, ds: Seq<nat>)
    ensures
        delta_sum(ds) < duration ==> !tick_run(fresh_view(duration, false), ds).finished
            && tick_run(fresh_view(duration, false), ds).elapsed == delta_sum(ds),
        ds.len() > 0 && delta_sum(ds) >= duration ==> tick_run(fresh_view(duration, false), ds).finished,
        (forall|i: int| 0 <= i < ds.len() ==> ds[i] >= 1) && ds.len() >= duration && ds.len() > 0
            ==> tick_run(fresh_view(duration, false), ds).finished,
{
    lemma_runs(fresh_view(duration, false), ds);
    if forall|i: int| 0 <= i < ds.len() ==> ds[i] >= 1 {
        lemma_sum_at_least_len(ds);
    }
}

/// A character that is knocked back or hardly moves keeps the way it faces; one that
/// walks freely faces right exactly when it moves right.
pub proof fn law_facing_kept_unless_walking(
    current: FacingDirection,
    has_knockback: bool,
    is_walking: bool,
    moving_right: bool,
)
    ensures
        has_knockback || !is_walking ==> facing_spec(current, has_knockback, is_walking, moving_right)
            == current,
        !has_knockback && is_walking && moving_right ==> facing_spec(current, has_knockback, is_walking, moving_right)
            == FacingDirection::Right,
        !has_knockback && is_walking && !moving_right ==> facing_spec(current, has_knockback, is_walking, moving_right)
            == FacingDirection::Left,
{
}

/// While attacking a character shows its attack clip in every movement state; otherwise
/// it shows the clip of its movement state.
pub proof fn law_attack_clip_wins(state: crate::movement::MovementState)
    ensures
        animation_key_spec(true, state) == AnimationKey::Attacking,
        animation_key_spec(false, crate::movement::MovementState::Jumping) == AnimationKey::Jumping,
        animation_key_spec(false, crate::movement::MovementState::Walking) == AnimationKey::Walking,
        animation_key_spec(false, crate::movement::MovementState::Idle) == AnimationKey::Idle,
        animation_key_spec(false, state) != AnimationKey::Attacking,
{
}

/// Without a progress a sprite shows its frames in turn: a frame that is not the last is
/// followed by the next one, and the last by the first. With a progress it shows the frame
/// the progress points at, or the last frame when the progress points past it.
pub proof fn law_frames_step_in_turn(index: nat, frames: nat, p: nat)
    ensures
        index + 1 < frames ==> next_frame_spec(index, frames, None) == index + 1,
        frames > 0 && index + 1 == frames ==> next_frame_spec(index, frames, None) == 0,
        p < frames ==> next_frame_spec(index, frames, Some(p)) == p,
        frames > 0 && p >= frames ==> next_frame_spec(index, frames, Some(p)) == frames - 1,
        frames == 0 ==> next_frame_spec(index, frames, Some(p)) == 0,
{
    if index + 1 < frames {
        lemma_small_mod((index + 1) as nat, frames);
    }
    if frames > 0 && index + 1 == frames {
        lemma_mod_self_0(frames as int);
    }
}

} // verus!
