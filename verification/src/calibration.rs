//! Estimating the counter frequency from bracketed samples against a reference clock.
//!
//! Each sample spins for [`CALIBRATION_TIME_NS`] of reference time and records how far the
//! counter moved. A sample whose reference window overran by more than half (the thread was
//! preempted) is dropped, and the median rate of the survivors is the estimate.

use vstd::prelude::*;

use crate::sorting::{sorted_ascending, sorted_copy, lemma_sorted_ascending_ensures};

verus! {

/// Length of one calibration window of the reference clock.
pub const CALIBRATION_TIME_NS: u64 = 100_000_000;

/// Longest reference window still trusted: one and a half calibration windows.
pub const MAX_OVERRUN_NS: u64 = 150_000_000;

/// Number of bracketed samples taken per calibration.
pub const NUM_SAMPLES: usize = 7;

/// One bracketed measurement: counter ticks elapsed over a reference-clock window.
#[derive(Clone, Copy, Debug, PartialEq, Eq)]
pub struct CalibrationSample {
    /// Counter ticks between the two reads.
    pub ticks: u64,
    /// Reference nanoseconds between the bracketing reads.
    pub wall_elapsed_ns: u64,
}

/// The rate in Hz that `ticks` over `wall_elapsed_ns` nanoseconds gives, clamped to `u64::MAX`;
/// `None` for an empty window.
pub open spec fn rate_hz(ticks: int, wall_elapsed_ns: int) -> Option<int> {
    if wall_elapsed_ns == 0 {
        None
    } else {
        let hz = (ticks * 1_000_000_000) / wall_elapsed_ns;
        Some(if hz <= u64::MAX { hz } else { u64::MAX as int })
    }
}

/// The rates of the samples that were not preempted (and had a non-empty window), in order.
pub open spec fn surviving_rates(samples: Seq<CalibrationSample>) -> Seq<u128>
    decreases samples.len(),
{
    if samples.len() == 0 {
        Seq::empty()
    } else {
        let rest = surviving_rates(samples.drop_last());
        let last = samples.last();
        if last.wall_elapsed_ns <= MAX_OVERRUN_NS && last.wall_elapsed_ns > 0 {
            rest.push(rate_hz(last.ticks as int, last.wall_elapsed_ns as int)->0 as u128)
        } else {
            rest
        }
    }
}

/// The frequency that `ticks` over `wall_elapsed_ns` nanoseconds gives, in Hz, saturating at
/// `u64::MAX`; `None` for an empty window.
pub fn sample_hz(ticks: u64, wall_elapsed_ns: u64) -> (r: Option<u64>)
    ensures
        r matches Some(hz) ==> rate_hz(ticks as int, wall_elapsed_ns as int) == Some(hz as int),
        r is None ==> rate_hz(ticks as int, wall_elapsed_ns as int) is None,
{
    let hz = match ((ticks as u128) * 1_000_000_000).checked_div(wall_elapsed_ns as u128) {
        Some(hz) => hz,
        None => return None,
    };
    if hz > u64::MAX as u128 {
        Some(u64::MAX)
    } else {
        Some(hz as u64)
    }
}

/// The rate of the sample taken when every bracketed sample was preempted: used as is, zero for
/// an empty window.
pub fn unfiltered_frequency(sample: CalibrationSample) -> (hz: u64)
    ensures
        hz == (match rate_hz(sample.ticks as int, sample.wall_elapsed_ns as int) {
            Some(r) => r,
            None => 0,
        }),
{
    match sample_hz(sample.ticks, sample.wall_elapsed_ns) {
        Some(hz) => hz,
        None => 0,
    }
}

/// The calibrated frequency: the median rate (the middle element, upper middle for an even
/// count, of the ascending rates) of the samples that were not preempted, or `None` when every
/// sample was dropped.
pub fn calibrate_frequency(samples: &[CalibrationSample]) -> (r: Option<u64>)
    ensures
        r is Some <==> surviving_rates(samples@).len() > 0,
        r matches Some(hz) ==> hz == sorted_ascending(surviving_rates(samples@))[surviving_rates(samples@).len() as int / 2],
{
    let mut survivors: Vec<u128> = Vec::new();
    let mut i: usize = 0;
    while i < samples.len()
        invariant
            i <= samples.len(),
            survivors@ == surviving_rates(samples@.subrange(0, i as int)),
            forall|k: int| 0 <= k < survivors@.len() ==> survivors@[k] <= u64::MAX,
        decreases samples.len() - i,
    {
        let sample = samples[i];
        assert(samples@.subrange(0, i + 1).drop_last() =~= samples@.subrange(0, i as int));
        if sample.wall_elapsed_ns <= MAX_OVERRUN_NS {
            match sample_hz(sample.ticks, sample.wall_elapsed_ns) {
                Some(hz) => survivors.push(hz as u128),
                None => {},
            }
        }
        i = i + 1;
    }
    assert(samples@.subrange(0, samples.len() as int) =~= samples@);
    if survivors.len() == 0 {
        return None;
    }
    let sorted = sorted_copy(survivors.as_slice());
    proof {
        lemma_sorted_ascending_ensures(survivors@);
        let m = sorted@[survivors@.len() as int / 2];
        assert(sorted@.to_multiset().count(m) > 0) by {
            vstd::seq_lib::to_multiset_contains(sorted@, m);
            assert(sorted@.contains(m));
        }
        vstd::seq_lib::to_multiset_contains(survivors@, m);
        assert(survivors@.contains(m));
    }
    Some(sorted[survivors.len() / 2] as u64)
}

} // verus!
