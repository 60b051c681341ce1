//! Judging a counter from its readings: validity, precision and read latency.

use vstd::prelude::*;

use crate::sorting::{lemma_sorted_ascending_ensures, sorted_ascending, sorted_copy};

verus! {

/// Largest step between consecutive readings still taken as the counter's precision.
pub const MAX_PRECISION_TICKS: u64 = 1_000_000;

/// Reads timed per latency sample.
pub const LATENCY_MEASURE_ITERS: u64 = 50_000;

/// What validation learned about a counter.
#[derive(Clone, Copy, Debug, PartialEq, Eq)]
pub struct CounterValidation {
    /// Smallest positive step observed between consecutive readings.
    pub precision_ticks: u64,
}

/// Total time of a batch of reads, over several samples.
#[derive(Clone, Copy, Debug, PartialEq, Eq)]
pub struct CounterLatency {
    /// Fastest sample.
    pub best_total_nanos: u128,
    /// Median sample.
    pub median_total_nanos: u128,
    /// Slowest sample.
    pub worst_total_nanos: u128,
    /// Reads per sample.
    pub iterations: u64,
}

/// Validation and latency of one counter.
#[derive(Clone, Copy, Debug, PartialEq, Eq)]
pub struct CounterScore {
    pub validation: CounterValidation,
    pub latency: CounterLatency,
}

/// Consecutive readings never go backwards.
pub open spec fn non_decreasing(times: Seq<u64>) -> bool {
    forall|i: int, j: int| 0 <= i <= j < times.len() ==> times[i] <= times[j]
}

/// The smallest step `times[i + 1] - times[i]` among the first `n` steps that is positive and
/// below [`MAX_PRECISION_TICKS`], or `u64::MAX` when there is none.
pub open spec fn smallest_step(times: Seq<u64>, n: int) -> u64
    decreases n,
{
    if n <= 0 {
        u64::MAX
    } else {
        let rest = smallest_step(times, n - 1);
        let d = times[n] - times[n - 1];
        if 0 < d < MAX_PRECISION_TICKS && d < rest {
            d as u64
        } else {
            rest
        }
    }
}

/// Decides whether a counter is usable from one validation pass: it `works` (two reads did not
/// fault), its consecutive `times` never go backwards and moved overall, it kept cross-thread
/// ordering, and some step between readings was small enough to give its precision.
pub fn validate_counter(works: bool, times: &[u64], cross_thread_ordered: bool) -> (r: Option<CounterValidation>)
    requires
        times.len() >= 1,
    ensures
        r is Some <==> (works && times@[0] != times@[times.len() - 1] && non_decreasing(times@) && cross_thread_ordered
            && smallest_step(times@, times.len() - 1) != u64::MAX),
        r matches Some(v) ==> v.precision_ticks == smallest_step(times@, times.len() - 1),
{
    if !works {
        return None;
    }
    let last = times.len() - 1;
    if times[0] == times[last] {
        return None;
    }
    let mut i: usize = 0;
    while i < last
        invariant
            last == times.len() - 1,
            i <= last,
            forall|a: int, b: int| 0 <= a <= b <= i ==> times@[a] <= times@[b],
        decreases last - i,
    {
        if times[i] > times[i + 1] {
            return None;
        }
        i = i + 1;
    }
    if !cross_thread_ordered {
        return None;
    }
    let mut smallest = u64::MAX;
    let mut j: usize = 0;
    while j < last
        invariant
            last == times.len() - 1,
            j <= last,
            non_decreasing(times@),
            smallest == smallest_step(times@, j as int),
        decreases last - j,
    {
        let diff = times[j + 1] - times[j];
        if diff > 0 && diff < smallest && diff < MAX_PRECISION_TICKS {
            smallest = diff;
        }
        j = j + 1;
    }
    if smallest == u64::MAX {
        None
    } else {
        Some(CounterValidation { precision_ticks: smallest })
    }
}

/// The coarsest precision over `n` passes, or `None` as soon as a pass failed.
pub open spec fn stable_validation(passes: Seq<Option<CounterValidation>>, n: int) -> Option<CounterValidation>
    decreases n,
{
    if n <= 0 {
        Some(CounterValidation { precision_ticks: 0 })
    } else {
        match (stable_validation(passes, n - 1), passes[n - 1]) {
            (Some(acc), Some(v)) => Some(CounterValidation {
                precision_ticks: if v.precision_ticks > acc.precision_ticks { v.precision_ticks } else { acc.precision_ticks },
            }),
            _ => None,
        }
    }
}

/// Combines repeated validation passes: the counter is valid only if every pass was, and its
/// precision is the coarsest one seen.
pub fn validate_counter_stable(passes: &[Option<CounterValidation>]) -> (r: Option<CounterValidation>)
    ensures
        r == stable_validation(passes@, passes.len() as int),
{
    let mut precision_ticks: u64 = 0;
    let mut i: usize = 0;
    while i < passes.len()
        invariant
            i <= passes.len(),
            stable_validation(passes@, i as int) == Some(CounterValidation { precision_ticks }),
        decreases passes.len() - i,
    {
        match passes[i] {
            Some(v) => {
                if v.precision_ticks > precision_ticks {
                    precision_ticks = v.precision_ticks;
                }
            },
            None => {
                assert forall|k: int| i < k <= passes.len() implies #[trigger] stable_validation(passes@, k) is None by {
                    lemma_failed_pass_stays_failed(passes@, i as int + 1, k);
                }
                return None;
            },
        }
        i = i + 1;
    }
    Some(CounterValidation { precision_ticks })
}

proof fn lemma_failed_pass_stays_failed(passes: Seq<Option<CounterValidation>>, m: int, k: int)
    requires
        m >= 1,
        m <= k,
        stable_validation(passes, m) is None || passes[m - 1] is None,
    ensures
        stable_validation(passes, k) is None,
    decreases k - m,
{
    if k > m {
        lemma_failed_pass_stays_failed(passes, m, k - 1);
    }
}

/// Whether `candidate` beats `current`: lower median latency, then lower best latency, then
/// finer precision.
pub fn score_is_better(candidate: CounterScore, current: CounterScore) -> (r: bool)
    ensures
        r == (candidate.latency.median_total_nanos < current.latency.median_total_nanos
            || (candidate.latency.median_total_nanos == current.latency.median_total_nanos
                && (candidate.latency.best_total_nanos < current.latency.best_total_nanos
                    || (candidate.latency.best_total_nanos == current.latency.best_total_nanos
                        && candidate.validation.precision_ticks < current.validation.precision_ticks)))),
{
    if candidate.latency.median_total_nanos != current.latency.median_total_nanos {
        return candidate.latency.median_total_nanos < current.latency.median_total_nanos;
    }
    if candidate.latency.best_total_nanos != current.latency.best_total_nanos {
        return candidate.latency.best_total_nanos < current.latency.best_total_nanos;
    }
    candidate.validation.precision_ticks < current.validation.precision_ticks
}

/// Summarizes timed batches of reads: the fastest, median and slowest batch.
pub fn measure_counter_latency(samples: &[u128]) -> (l: CounterLatency)
    requires
        samples.len() > 0,
    ensures
        l.best_total_nanos == sorted_ascending(samples@)[0],
        l.median_total_nanos == sorted_ascending(samples@)[samples.len() as int / 2],
        l.worst_total_nanos == sorted_ascending(samples@)[samples.len() - 1],
        l.iterations == LATENCY_MEASURE_ITERS,
{
    let sorted = sorted_copy(samples);
    proof {
        lemma_sorted_ascending_ensures(samples@);
    }
    CounterLatency {
        best_total_nanos: sorted[0],
        median_total_nanos: sorted[sorted.len() / 2],
        worst_total_nanos: sorted[sorted.len() - 1],
        iterations: LATENCY_MEASURE_ITERS,
    }
}

/// A counter's score: present only when it passed validation.
pub fn score_counter(validation: Option<CounterValidation>, latency: CounterLatency) -> (r: Option<CounterScore>)
    ensures
        r == (match validation {
            Some(v) => Some(CounterScore { validation: v, latency }),
            None => None,
        }),
{
    match validation {
        Some(v) => Some(CounterScore { validation: v, latency }),
        None => None,
    }
}

} // verus!
