//! The time-gated step scheduler.

use vstd::prelude::*;

verus! {

/// The smallest accepted step interval, in milliseconds.
pub const MIN_INTERVAL_MS: u64 = 100;

/// The largest accepted step interval, in milliseconds.
pub const MAX_INTERVAL_MS: u64 = 2000;

/// The step interval a fresh scheduler starts with, in milliseconds.
pub const DEFAULT_INTERVAL_MS: u64 = 500;

/// Decides, from a stream of current timestamps, when a generation step is
/// due. Time is integer milliseconds of a monotonic elapsed-time clock; the
/// scheduler is agnostic to the clock's origin.
pub struct StepScheduler {
    /// Whether the automaton is evolving (`Playing`) or halted (`Paused`).
    pub is_playing: bool,
    /// Milliseconds that must elapse between two fired steps.
    pub interval_ms: u64,
    /// Timestamp of the last fired step, in clock milliseconds.
    pub last_step_ms: u64,
}

/// `ms` clamped into the accepted interval range.
pub open spec fn clamped_interval(ms: u64) -> u64 {
    if ms < MIN_INTERVAL_MS {
        MIN_INTERVAL_MS
    } else if ms > MAX_INTERVAL_MS {
        MAX_INTERVAL_MS
    } else {
        ms
    }
}

impl StepScheduler {
    /// Well-formed: the interval lies in the accepted range.
    pub open spec fn wf(self) -> bool {
        MIN_INTERVAL_MS <= self.interval_ms <= MAX_INTERVAL_MS
    }

    /// A paused scheduler with the default interval, whose last-step time is
    /// the current clock reading.
    pub fn new(now_ms: u64) -> (s: StepScheduler)
        ensures
            s.wf(),
            !s.is_playing,
            s.interval_ms == DEFAULT_INTERVAL_MS,
            s.last_step_ms == now_ms,
    {
        StepScheduler { is_playing: false, interval_ms: DEFAULT_INTERVAL_MS, last_step_ms: now_ms }
    }

    /// Starts evolving; the timer state is untouched.
    pub fn play(&mut self)
        ensures
            final(self).is_playing,
            final(self).interval_ms == old(self).interval_ms,
            final(self).last_step_ms == old(self).last_step_ms,
    {
        self.is_playing = true;
    }

    /// Halts evolution; the timer state is untouched, so pausing mid-interval
    /// and resuming later does not by itself cause a catch-up step.
    pub fn pause(&mut self)
        ensures
            !final(self).is_playing,
            final(self).interval_ms == old(self).interval_ms,
            final(self).last_step_ms == old(self).last_step_ms,
    {
        self.is_playing = false;
    }

    /// Stores `ms` as the step interval, clamped into the accepted range;
    /// it takes effect on the next `tick` evaluation.
    pub fn set_interval_ms(&mut self, ms: u64)
        ensures
            final(self).wf(),
            final(self).interval_ms == clamped_interval(ms),
            final(self).is_playing == old(self).is_playing,
            final(self).last_step_ms == old(self).last_step_ms,
    {
        self.interval_ms = if ms < MIN_INTERVAL_MS {
            MIN_INTERVAL_MS
        } else if ms > MAX_INTERVAL_MS {
            MAX_INTERVAL_MS
        } else {
            ms
        };
    }

    /// Decides whether a step is due at time `now_ms`: exactly when playing
    /// and a full interval has elapsed since the last fired step. Fires at
    /// most once per call, and advances the stored timestamp exactly when it
    /// fires — so the timestamp never decreases. While paused, no call ever
    /// fires or changes any state.
    pub fn tick(&mut self, now_ms: u64) -> (fired: bool)
        requires
            old(self).wf(),
        ensures
            final(self).wf(),
            fired == (old(self).is_playing && now_ms >= old(self).last_step_ms + old(
                self,
            ).interval_ms),
            final(self).last_step_ms == if fired {
                now_ms
            } else {
                old(self).last_step_ms
            },
            final(self).last_step_ms >= old(self).last_step_ms,
            final(self).is_playing == old(self).is_playing,
            final(self).interval_ms == old(self).interval_ms,
    {
        if self.is_playing && now_ms >= self.last_step_ms && now_ms - self.last_step_ms
            >= self.interval_ms {
            self.last_step_ms = now_ms;
            true
        } else {
            false
        }
    }
}

} // verus!
