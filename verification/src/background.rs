//! The interval of the periodic recalibration.

use core::time::Duration;
use vstd::prelude::*;

use crate::convert::{duration_as_secs, duration_nanos, NANOS_PER_SECOND};

verus! {

/// Seconds between recalibrations unless configured otherwise.
pub const DEFAULT_INTERVAL_SECS: u64 = 60;

/// The recalibration interval, in whole seconds, that a requested `interval` sets: its whole
/// seconds, raised to at least one second.
pub fn recalibration_interval_secs(interval: Duration) -> (secs: u64)
    ensures
        secs == (if duration_nanos(interval) / NANOS_PER_SECOND >= 1 {
            duration_nanos(interval) / NANOS_PER_SECOND
        } else {
            1
        }),
{
    let secs = duration_as_secs(&interval);
    if secs >= 1 { secs } else { 1 }
}

/// The whole seconds that `recalibration_interval_secs` sets for `interval`.
pub open spec fn interval_secs_for(interval: Duration) -> nat {
    if duration_nanos(interval) / NANOS_PER_SECOND >= 1 {
        (duration_nanos(interval) / NANOS_PER_SECOND) as nat
    } else {
        1
    }
}

/// The configured period of the recalibration loop. The loop sleeps this many seconds between
/// recalibrations; a change is picked up at the next sleep.
#[derive(Clone, Copy, Debug, PartialEq, Eq)]
pub struct RecalibrationSchedule {
    interval_secs: u64,
}

impl RecalibrationSchedule {
    /// The configured interval in whole seconds.
    pub closed spec fn interval(self) -> nat {
        self.interval_secs as nat
    }

    /// The default schedule: every [`DEFAULT_INTERVAL_SECS`] seconds.
    pub fn new() -> (s: Self)
        ensures
            s.interval() == DEFAULT_INTERVAL_SECS,
            s.interval() >= 1,
    {
        RecalibrationSchedule { interval_secs: DEFAULT_INTERVAL_SECS }
    }

    /// Sets the interval to `interval`, in whole seconds; intervals under one second are
    /// raised to one second.
    pub fn set_recalibration_interval(&mut self, interval: Duration)
        ensures
            final(self).interval() == interval_secs_for(interval),
            final(self).interval() >= 1,
    {
        self.interval_secs = recalibration_interval_secs(interval);
    }

    /// The interval the loop sleeps next, in whole seconds (at least one).
    pub fn interval_secs(&self) -> (secs: u64)
        ensures
            secs == self.interval(),
    {
        self.interval_secs
    }
}

} // verus!
