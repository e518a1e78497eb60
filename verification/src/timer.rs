//! The settle timer: a one-shot countdown that debounces re-centering.
//!
//! When the target comes to rest inside the dead zone but off-center, the
//! camera waits [`SETTLE_MS`] of accumulated frame time before it commits to
//! a final centering correction; any disturbance resets the wait.

use vstd::prelude::*;

verus! {

/// The delay, in milliseconds, before an off-center camera starts its final
/// centering correction (0.4 seconds).
pub const SETTLE_MS: u64 = 400;

/// A one-shot timer with a fixed [`SETTLE_MS`] duration. It accumulates
/// elapsed frame time up to the duration and is finished once it reaches it;
/// resetting disarms it.
#[derive(Clone, Copy, Debug, PartialEq, Eq, Structural)]
pub struct SettleTimer {
    pub elapsed_ms: u64,
}

impl SettleTimer {
    /// Whether the countdown has run to its end.
    pub open spec fn spec_finished(self) -> bool {
        self.elapsed_ms >= SETTLE_MS
    }

    /// The accumulated time after ticking by `dt_ms`, clamped to the
    /// duration.
    pub open spec fn spec_after_tick(self, dt_ms: int) -> int {
        if self.elapsed_ms + dt_ms >= SETTLE_MS {
            SETTLE_MS as int
        } else {
            self.elapsed_ms + dt_ms
        }
    }

    /// A fresh, unarmed timer.
    pub fn new() -> (t: SettleTimer)
        ensures
            t.elapsed_ms == 0,
    {
        SettleTimer { elapsed_ms: 0 }
    }

    /// Advances the countdown by `dt_ms` of elapsed frame time. Once the
    /// duration is reached the accumulated time stays clamped there.
    pub fn tick(&mut self, dt_ms: u64)
        requires
            old(self).elapsed_ms <= SETTLE_MS,
        ensures
            final(self).elapsed_ms as int == old(self).spec_after_tick(dt_ms as int),
            final(self).elapsed_ms <= SETTLE_MS,
    {
        if dt_ms >= SETTLE_MS - self.elapsed_ms {
            self.elapsed_ms = SETTLE_MS;
        } else {
            self.elapsed_ms = self.elapsed_ms + dt_ms;
        }
    }

    /// Disarms the countdown.
    pub fn reset(&mut self)
        ensures
            final(self).elapsed_ms == 0,
    {
        self.elapsed_ms = 0;
    }

    /// Whether the countdown has run to its end.
    pub fn finished(&self) -> (r: bool)
        ensures
            r == self.spec_finished(),
    {
        self.elapsed_ms >= SETTLE_MS
    }
}

} // verus!
