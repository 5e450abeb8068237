//! A resettable countdown, either one-shot or auto-repeating, with
//! "just elapsed" edge detection.
//!
//! Durations and elapsed time are in milliseconds.  A one-shot countdown
//! clamps its elapsed time at the duration; a repeating one wraps around
//! and reports the tick on which it wrapped.

use vstd::prelude::*;

verus! {

/// Largest countdown duration, in milliseconds.
pub const MAX_DURATION_MS: u32 = 60000;

/// Largest tick length, in milliseconds.
pub const MAX_TICK_MS: u32 = 1000;

/// A countdown over milliseconds.
#[derive(Clone, Copy, PartialEq, Eq, Structural, Debug)]
pub struct Countdown {
    /// Length of a full cycle, in milliseconds.
    pub duration_ms: u32,
    /// Time accumulated in the current cycle, in milliseconds.
    pub elapsed_ms: u32,
    /// Whether the countdown restarts by itself after elapsing.
    pub repeating: bool,
    /// Whether the countdown elapsed on the most recent tick.
    pub just_elapsed: bool,
}

impl Countdown {
    /// Structural soundness of a countdown.
    pub open spec fn wf(self) -> bool {
        &&& 1 <= self.duration_ms <= MAX_DURATION_MS
        &&& if self.repeating {
            self.elapsed_ms < self.duration_ms
        } else {
            self.elapsed_ms <= self.duration_ms
        }
    }

    /// Whether the countdown has run to its end.  A one-shot countdown
    /// stays finished until reset; a repeating one is finished exactly
    /// on the ticks on which it wrapped.
    pub open spec fn spec_finished(self) -> bool {
        if self.repeating {
            self.just_elapsed
        } else {
            self.elapsed_ms == self.duration_ms
        }
    }

    /// A fresh countdown: nothing elapsed yet.
    pub fn new(duration_ms: u32, repeating: bool) -> (r: Countdown)
        requires
            1 <= duration_ms <= MAX_DURATION_MS,
        ensures
            r.wf(),
            r.duration_ms == duration_ms,
            r.repeating == repeating,
            r.elapsed_ms == 0,
            !r.just_elapsed,
    {
        Countdown { duration_ms, elapsed_ms: 0, repeating, just_elapsed: false }
    }

    /// Advance the countdown by `dt_ms` milliseconds.  A one-shot
    /// countdown clamps at its duration and reports `just_elapsed` only
    /// on the tick that reaches it; a repeating countdown wraps and
    /// reports `just_elapsed` on every tick on which it wrapped.
    pub fn tick(&mut self, dt_ms: u32)
        requires
            old(self).wf(),
            1 <= dt_ms <= MAX_TICK_MS,
        ensures
            final(self).wf(),
            final(self).duration_ms == old(self).duration_ms,
            final(self).repeating == old(self).repeating,
            old(self).repeating ==> {
                &&& final(self).just_elapsed == (old(self).elapsed_ms + dt_ms
                    >= old(self).duration_ms)
                &&& final(self).elapsed_ms == (old(self).elapsed_ms + dt_ms)
                    % (old(self).duration_ms as int)
            },
            !old(self).repeating ==> {
                &&& final(self).just_elapsed == (old(self).elapsed_ms < old(self).duration_ms
                    && old(self).elapsed_ms + dt_ms >= old(self).duration_ms)
                &&& final(self).elapsed_ms == spec_min_u32(
                    old(self).elapsed_ms + dt_ms, old(self).duration_ms as int)
            },
    {
        let total: u32 = self.elapsed_ms + dt_ms;
        if self.repeating {
            self.just_elapsed = total >= self.duration_ms;
            self.elapsed_ms = total % self.duration_ms;
        } else {
            if total >= self.duration_ms {
                self.just_elapsed = self.elapsed_ms < self.duration_ms;
                self.elapsed_ms = self.duration_ms;
            } else {
                self.just_elapsed = false;
                self.elapsed_ms = total;
            }
        }
    }

    /// Start the cycle over; clears the edge flag.
    pub fn reset(&mut self)
        requires
            old(self).wf(),
        ensures
            final(self).wf(),
            final(self).duration_ms == old(self).duration_ms,
            final(self).repeating == old(self).repeating,
            final(self).elapsed_ms == 0,
            !final(self).just_elapsed,
    {
        self.elapsed_ms = 0;
        self.just_elapsed = false;
    }

    /// Whether the countdown has run to its end.
    pub fn finished(&self) -> (r: bool)
        ensures
            r == self.spec_finished(),
    {
        if self.repeating {
            self.just_elapsed
        } else {
            self.elapsed_ms == self.duration_ms
        }
    }

    /// Whether the countdown elapsed on the most recent tick.
    pub fn just_finished(&self) -> (r: bool)
        ensures
            r == self.just_elapsed,
    {
        self.just_elapsed
    }

    /// Whether no time at all has accumulated in the current cycle.
    pub fn at_start(&self) -> (r: bool)
        ensures
            r == (self.elapsed_ms == 0),
    {
        self.elapsed_ms == 0
    }
}

/// The smaller of two values.
pub open spec fn spec_min_u32(a: int, b: int) -> int {
    if a < b {
        a
    } else {
        b
    }
}

} // verus!
