//! Countdown timers driving every periodic behaviour in the simulation:
//! trap cooldowns, effect lifetimes, spawn and progression periods, and
//! the gold-interest period.
//!
//! A timer accumulates elapsed milliseconds up to its duration.  Ticking
//! it across the duration boundary raises `just_finished` for exactly
//! that tick; a repeating timer then wraps its overshoot into the next
//! period, a one-shot timer stays pinned at its duration and never
//! reports finishing again.

use vstd::prelude::*;

use crate::fixed::MAX_TICK_MS;
use crate::fixed::MAX_TIMER_MS;

verus! {

/// A periodic or one-shot countdown over milliseconds.
#[derive(Clone, Copy, PartialEq, Eq, Structural, Debug)]
pub struct Timer {
    /// Period length in milliseconds; always at least one.
    pub duration_ms: u64,
    /// Milliseconds accumulated into the current period; never exceeds
    /// `duration_ms`.
    pub elapsed_ms: u64,
    /// Whether the timer restarts after reaching its duration.
    pub repeating: bool,
    /// Whether the most recent tick reached the duration boundary.
    pub just_finished: bool,
}

impl Timer {
    /// Validity: a positive, bounded duration and a bounded elapsed time.
    pub open spec fn wf(self) -> bool {
        &&& 1 <= self.duration_ms <= MAX_TIMER_MS
        &&& self.elapsed_ms <= self.duration_ms
    }

    /// The timer after one tick of `delta` milliseconds.
    pub open spec fn spec_ticked(self, delta: u64) -> Timer {
        let total = self.elapsed_ms + delta;
        if total >= self.duration_ms {
            if self.repeating {
                Timer {
                    elapsed_ms: (total % (self.duration_ms as int)) as u64,
                    just_finished: true,
                    ..self
                }
            } else {
                Timer {
                    elapsed_ms: self.duration_ms,
                    just_finished: self.elapsed_ms < self.duration_ms,
                    ..self
                }
            }
        } else {
            Timer { elapsed_ms: (total as u64), just_finished: false, ..self }
        }
    }

    /// A fresh timer with nothing elapsed.
    pub fn from_millis(duration_ms: u64, repeating: bool) -> (r: Timer)
        requires
            1 <= duration_ms <= MAX_TIMER_MS,
        ensures
            r == (Timer { duration_ms, elapsed_ms: 0, repeating, just_finished: false }),
            r.wf(),
    {
        Timer { duration_ms, elapsed_ms: 0, repeating, just_finished: false }
    }

    /// Advance the timer by `delta_ms` milliseconds.
    pub fn tick(&mut self, delta_ms: u64)
        requires
            old(self).wf(),
            delta_ms <= MAX_TICK_MS,
        ensures
            *final(self) == old(self).spec_ticked(delta_ms),
            final(self).wf(),
    {
        let total = self.elapsed_ms + delta_ms;
        if total >= self.duration_ms {
            self.just_finished = self.repeating || self.elapsed_ms < self.duration_ms;
            self.elapsed_ms = if self.repeating {
                total % self.duration_ms
            } else {
                self.duration_ms
            };
        } else {
            self.elapsed_ms = total;
            self.just_finished = false;
        }
    }

    /// Replace the period, keeping the accumulated time where it still
    /// fits and clamping it to the new duration where it does not.
    pub fn set_duration(&mut self, duration_ms: u64)
        requires
            old(self).wf(),
            1 <= duration_ms <= MAX_TIMER_MS,
        ensures
            final(self).duration_ms == duration_ms,
            final(self).elapsed_ms == if old(self).elapsed_ms <= duration_ms {
                old(self).elapsed_ms
            } else {
                duration_ms
            },
            final(self).repeating == old(self).repeating,
            final(self).just_finished == old(self).just_finished,
            final(self).wf(),
    {
        self.duration_ms = duration_ms;
        if self.elapsed_ms > duration_ms {
            self.elapsed_ms = duration_ms;
        }
    }

    /// Share of the period still ahead, in thousandths; a drawing query.
    pub fn per_mille_left(&self) -> (r: u64)
        requires
            self.wf(),
        ensures
            r == 1000 - self.elapsed_ms * 1000 / (self.duration_ms as int),
            r <= 1000,
    {
        proof {
            assert((self.elapsed_ms as int) * 1000 / (self.duration_ms as int) <= 1000)
                by (nonlinear_arith)
                requires
                    self.elapsed_ms <= self.duration_ms,
                    self.duration_ms >= 1,
            ;
        }
        1000 - self.elapsed_ms * 1000 / self.duration_ms
    }
}

} // verus!
