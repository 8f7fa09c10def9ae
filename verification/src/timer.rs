//! Timers, kept as plain nanosecond counts and advanced by `bevy::time::Timer`.
use bevy::time::Timer as EngineTimer;
use bevy::time::TimerMode as EngineTimerMode;
use std::time::Duration;
use vstd::prelude::*;

verus! {

/// How a [`Timer`] behaves once it has reached its duration.
#[derive(Clone, Copy, Debug, PartialEq, Eq, Structural)]
pub enum TimerMode {
    /// Runs out once and stays there.
    Once,
    /// Starts over, keeping the remainder.
    Repeating,
}

/// A count of nanoseconds toward a duration.
#[derive(Clone, Copy, Debug, PartialEq, Eq, Structural)]
pub struct Timer {
    pub elapsed: u64,
    pub duration: u64,
    pub mode: TimerMode,
    pub finished: bool,
    pub times_finished_this_tick: u32,
}

/// Where a one-shot timer stands after `delta` more nanoseconds: elapsed time,
/// whether it has run out, and how often it ran out during this tick.
pub open spec fn once_after(elapsed: u64, duration: u64, delta: u64) -> (u64, bool, u32) {
    if elapsed >= duration {
        (duration, true, 0)
    } else if elapsed + delta >= duration {
        (duration, true, 1)
    } else {
        ((elapsed + delta) as u64, false, 0)
    }
}

/// Where a repeating timer stands after `delta` more nanoseconds. The count of
/// completions is kept in 32 bits and wraps.
pub open spec fn repeating_after(elapsed: u64, duration: u64, delta: u64) -> (u64, bool, u32)
    recommends
        duration > 0,
{
    let total = elapsed + delta;
    if total >= duration {
        (
            (total % (duration as int)) as u64,
            true,
            ((total / (duration as int)) % 0x1_0000_0000) as u32,
        )
    } else {
        (total as u64, false, 0)
    }
}

/// Where a timer of the given mode stands after `delta` more nanoseconds.
pub open spec fn after_tick(mode: TimerMode, elapsed: u64, duration: u64, delta: u64) -> (
    u64,
    bool,
    u32,
) {
    match mode {
        TimerMode::Once => once_after(elapsed, duration, delta),
        TimerMode::Repeating => repeating_after(elapsed, duration, delta),
    }
}

/// `bevy::time::Timer::tick` on a timer of the given mode and duration that stands
/// at `elapsed`. The timer is made with `Timer::new` and brought to `elapsed` with
/// `set_elapsed` and one tick of zero length, which marks a one-shot timer as run
/// out where `elapsed` has reached the duration and changes nothing else; then it
/// is ticked by `delta`. The result is what `elapsed`, `is_finished` and
/// `times_finished_this_tick` return afterwards. A one-shot timer that had run out
/// stays at its duration and reports no new completion; another one adds `delta`,
/// stops at its duration and reports one completion when it gets there. A
/// repeating timer keeps the sum below the duration; from the duration on it keeps
/// the remainder of the sum by the duration and reports the quotient, cut to 32
/// bits.
#[verifier::external_body]
fn tick_engine(mode: TimerMode, elapsed: u64, duration: u64, delta: u64) -> (after: (
    u64,
    bool,
    u32,
))
    requires
        duration > 0,
        mode == TimerMode::Repeating ==> elapsed < duration,
    ensures
        after == after_tick(mode, elapsed, duration, delta),
{
    let mode = match mode {
        TimerMode::Once => EngineTimerMode::Once,
        TimerMode::Repeating => EngineTimerMode::Repeating,
    };
    let mut timer = EngineTimer::new(Duration::from_nanos(duration), mode);
    timer.set_elapsed(Duration::from_nanos(elapsed));
    timer.tick(Duration::ZERO);
    timer.tick(Duration::from_nanos(delta));
    (timer.elapsed().as_nanos() as u64, timer.is_finished(), timer.times_finished_this_tick())
}

impl Timer {
    /// A timer is well formed when its duration is positive, it has not run past
    /// it, and a one-shot timer is marked as run out exactly when it stands at its
    /// duration.
    pub open spec fn wf(self) -> bool {
        &&& self.duration > 0
        &&& self.elapsed <= self.duration
        &&& self.mode == TimerMode::Once ==> (self.finished <==> self.elapsed == self.duration)
        &&& self.mode == TimerMode::Repeating ==> self.elapsed < self.duration
    }

    /// The timer after `delta` more nanoseconds.
    pub open spec fn ticked(self, delta: u64) -> Timer {
        let after = after_tick(self.mode, self.elapsed, self.duration, delta);
        Timer {
            elapsed: after.0,
            duration: self.duration,
            mode: self.mode,
            finished: after.1,
            times_finished_this_tick: after.2,
        }
    }

    /// A timer of `duration` nanoseconds on which no time has passed.
    pub open spec fn fresh(duration: u64, mode: TimerMode) -> Timer {
        Timer { elapsed: 0, duration, mode, finished: false, times_finished_this_tick: 0 }
    }

    /// A fresh timer of `duration` nanoseconds.
    pub fn new(duration: u64, mode: TimerMode) -> (timer: Timer)
        requires
            duration > 0,
        ensures
            timer == Timer::fresh(duration, mode),
            timer.wf(),
    {
        Timer { elapsed: 0, duration, mode, finished: false, times_finished_this_tick: 0 }
    }

    /// Advances the timer by `delta` nanoseconds.
    pub fn tick(&mut self, delta: u64)
        requires
            old(self).wf(),
        ensures
            *final(self) == old(self).ticked(delta),
            final(self).wf(),
    {
        let after = tick_engine(self.mode, self.elapsed, self.duration, delta);
        proof {
            if self.mode == TimerMode::Repeating && self.elapsed + delta >= self.duration {
                let total = self.elapsed + delta;
                let d = self.duration as int;
                assert(0 <= total % d < d) by (nonlinear_arith)
                    requires
                        d > 0,
                        total >= 0,
                ;
            }
        }
        self.elapsed = after.0;
        self.finished = after.1;
        self.times_finished_this_tick = after.2;
    }

    /// Whether the timer is well formed.
    pub fn is_wf(&self) -> (ok: bool)
        ensures
            ok == self.wf(),
    {
        self.duration > 0 && self.elapsed <= self.duration && match self.mode {
            TimerMode::Once => self.finished == (self.elapsed == self.duration),
            TimerMode::Repeating => self.elapsed < self.duration,
        }
    }

    /// Whether the timer has reached its duration.
    pub fn is_finished(&self) -> (finished: bool)
        ensures
            finished == self.finished,
    {
        self.finished
    }

    /// Whether the last tick counted a completion.
    pub fn just_finished(&self) -> (fired: bool)
        ensures
            fired == (self.times_finished_this_tick > 0),
    {
        self.times_finished_this_tick > 0
    }
}

} // verus!
