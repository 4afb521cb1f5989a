//! Countdown timers of the game, held as plain values.
//!
//! A `GameTimer` carries exactly what bevy's `Timer` keeps for an unpaused timer: its
//! duration, the time elapsed, its mode, whether it is finished and how often it finished
//! during the last tick. Advancing a timer is done by bevy's own `Timer::tick`.
use vstd::prelude::*;

verus! {

/// Whether a timer runs once or starts over every time it reaches its duration.
#[derive(Clone, Copy, Debug, PartialEq, Eq, Structural)]
pub enum TimerMode {
    Once,
    Repeating,
}

/// The mathematical state of a timer; all times are in nanoseconds.
pub struct TimerView {
    pub duration: nat,
    pub elapsed: nat,
    pub repeating: bool,
    pub finished: bool,
    pub times_finished: nat,
}

/// What one tick of `delta` nanoseconds does to an unpaused timer: a finished one-shot
/// timer stays as it is and reports no finish; otherwise the elapsed time grows by
/// `delta`, and when it reaches the duration the timer is finished: a one-shot timer then
/// stops at its duration, a repeating one wraps around and counts how often it elapsed
/// (truncated to 32 bits, and the largest `u32` for a zero duration).
pub open spec fn tick_view(t: TimerView, delta: nat) -> TimerView {
    if !t.repeating && t.finished {
        TimerView { times_finished: 0, ..t }
    } else {
        let grown = t.elapsed + delta;
        if grown >= t.duration {
            if t.repeating {
                if t.duration == 0 {
                    TimerView { elapsed: 0, finished: true, times_finished: 0xffff_ffff, ..t }
                } else {
                    TimerView {
                        elapsed: grown % t.duration,
                        finished: true,
                        times_finished: (grown / t.duration) % 0x1_0000_0000,
                        ..t
                    }
                }
            } else {
                TimerView { elapsed: t.duration, finished: true, times_finished: 1, ..t }
            }
        } else {
            TimerView { elapsed: grown, finished: false, times_finished: 0, ..t }
        }
    }
}

/// One frame of a status that lasts while its timer runs: once the timer has finished it
/// stays as it is (and the status expires), otherwise the timer is ticked.
pub open spec fn status_advance(t: TimerView, delta: nat) -> TimerView {
    if t.finished {
        t
    } else {
        tick_view(t, delta)
    }
}

/// A fresh timer of the given duration: nothing elapsed, not finished.
pub open spec fn fresh_view(duration: nat, repeating: bool) -> TimerView {
    TimerView { duration, elapsed: 0, repeating, finished: false, times_finished: 0 }
}

/// One tick of a timer that is rebuilt from its duration, elapsed time and mode.
pub open spec fn rebuilt_tick(duration_ns: u64, elapsed_ns: u64, repeating: bool, delta_ns: u64) -> TimerView {
    tick_view(fresh_view(duration_ns as nat, repeating).with_elapsed(elapsed_ns as nat), delta_ns as nat)
}

/// bevy's `Timer::tick` on a fresh unpaused timer of `duration_ns` whose elapsed time was set to
/// `elapsed_ns`; the result is the elapsed time, whether the timer is finished and how often it
/// finished during this tick. The contract restates the source of `Timer::tick` (and of
/// `Stopwatch::tick`, which adds with saturation: the sum of two `u64` nanosecond counts never
/// reaches `Duration::MAX`) for a timer that is neither paused nor finished before the tick.
#[verifier::external_body]
fn bevy_timer_tick(duration_ns: u64, elapsed_ns: u64, repeating: bool, delta_ns: u64) -> (r: (
    u64,
    bool,
    u32,
))
    ensures
        r.0 as nat == rebuilt_tick(duration_ns, elapsed_ns, repeating, delta_ns).elapsed,
        r.1 == rebuilt_tick(duration_ns, elapsed_ns, repeating, delta_ns).finished,
        r.2 as nat == rebuilt_tick(duration_ns, elapsed_ns, repeating, delta_ns).times_finished,
{
    let mode = if repeating {
        bevy::time::TimerMode::Repeating
    } else {
        bevy::time::TimerMode::Once
    };
    let mut timer = bevy::time::Timer::new(std::time::Duration::from_nanos(duration_ns), mode);
    timer.set_elapsed(std::time::Duration::from_nanos(elapsed_ns));
    timer.tick(std::time::Duration::from_nanos(delta_ns));
    (timer.elapsed().as_nanos() as u64, timer.is_finished(), timer.times_finished_this_tick())
}

impl TimerView {
    pub open spec fn with_elapsed(self, elapsed: nat) -> TimerView {
        TimerView { elapsed, ..self }
    }

    /// What every timer of the game keeps: the elapsed time never passes the duration, a
    /// finished one-shot timer stands at its duration, and a one-shot timer finishes at
    /// most once per tick.
    pub open spec fn wf(self) -> bool {
        &&& self.elapsed <= self.duration
        &&& (!self.repeating && self.finished ==> self.elapsed == self.duration)
        &&& (!self.repeating ==> self.times_finished <= 1)
    }

    pub open spec fn remaining(self) -> nat {
        (self.duration - self.elapsed) as nat
    }
}

/// A timer held as plain values.
#[derive(Clone, Copy, Debug)]
pub struct GameTimer {
    duration_ns: u64,
    elapsed_ns: u64,
    mode: TimerMode,
    finished: bool,
    times_finished_this_tick: u32,
}

impl View for GameTimer {
    type V = TimerView;

    closed spec fn view(&self) -> TimerView {
        TimerView {
            duration: self.duration_ns as nat,
            elapsed: self.elapsed_ns as nat,
            repeating: self.mode == TimerMode::Repeating,
            finished: self.finished,
            times_finished: self.times_finished_this_tick as nat,
        }
    }
}

impl GameTimer {
    #[verifier::type_invariant]
    closed spec fn inv(self) -> bool {
        self@.wf()
    }

    /// A timer of `duration_ns` nanoseconds that has not started.
    pub fn new(duration_ns: u64, mode: TimerMode) -> (t: GameTimer)
        ensures
            t@ == fresh_view(duration_ns as nat, mode == TimerMode::Repeating),
    {
        GameTimer { duration_ns, elapsed_ns: 0, mode, finished: false, times_finished_this_tick: 0 }
    }

    pub fn duration_ns(&self) -> (d: u64)
        ensures
            d == self@.duration,
    {
        self.duration_ns
    }

    pub fn elapsed_ns(&self) -> (e: u64)
        ensures
            e == self@.elapsed,
    {
        self.elapsed_ns
    }

    pub fn mode(&self) -> (m: TimerMode)
        ensures
            (m == TimerMode::Repeating) == self@.repeating,
    {
        self.mode
    }

    /// Whether the timer has reached its duration.
    pub fn is_finished(&self) -> (b: bool)
        ensures
            b == self@.finished,
            self@.wf(),
    {
        proof {
            use_type_invariant(self);
        }
        self.finished
    }

    /// Whether the timer reached its duration during the last tick.
    pub fn just_finished(&self) -> (b: bool)
        ensures
            b == (self@.times_finished > 0),
    {
        self.times_finished_this_tick > 0
    }

    pub fn times_finished_this_tick(&self) -> (n: u32)
        ensures
            n == self@.times_finished,
    {
        self.times_finished_this_tick
    }

    /// The time left until the duration is reached.
    pub fn remaining_ns(&self) -> (r: u64)
        ensures
            r == self@.remaining(),
            self@.wf(),
    {
        proof {
            use_type_invariant(self);
        }
        self.duration_ns - self.elapsed_ns
    }

    /// Starts the timer over: nothing elapsed, not finished.
    pub fn reset(&mut self)
        ensures
            final(self)@ == fresh_view(old(self)@.duration, old(self)@.repeating),
    {
        *self = GameTimer::new(self.duration_ns, self.mode);
    }

    /// Advances the timer by `delta_ns` nanoseconds.
    pub fn tick(&mut self, delta_ns: u64)
        ensures
            final(self)@ == tick_view(old(self)@, delta_ns as nat),
            final(self)@.wf(),
    {
        proof {
            use_type_invariant(&*self);
        }
        if self.mode == TimerMode::Once && self.finished {
            // bevy leaves a finished one-shot timer where it stands.
            *self = GameTimer { times_finished_this_tick: 0, ..*self };
        } else {
            let repeating = self.mode == TimerMode::Repeating;
            let (elapsed, finished, times) = bevy_timer_tick(
                self.duration_ns,
                self.elapsed_ns,
                repeating,
                delta_ns,
            );
            proof {
                let grown = self.elapsed_ns + delta_ns;
                if repeating && grown >= self.duration_ns && self.duration_ns > 0 {
                    assert(grown % (self.duration_ns as int) < self.duration_ns) by (nonlinear_arith)
                        requires
                            self.duration_ns > 0,
                    ;
                }
            }
            *self = GameTimer {
                elapsed_ns: elapsed,
                finished,
                times_finished_this_tick: times,
                ..*self
            };
        }
    }
}

} // verus!
