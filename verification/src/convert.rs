//! Conversions between raw counter ticks and wall-clock time.

use core::time::Duration;
use vstd::arithmetic::div_mod::{lemma_div_is_ordered, lemma_div_is_ordered_by_denominator, lemma_div_by_multiple};
use vstd::prelude::*;

verus! {

/// Nanoseconds in one second.
pub const NANOS_PER_SECOND: u128 = 1_000_000_000;

/// Microseconds in one second.
pub const MICROS_PER_SECOND: u128 = 1_000_000;

/// Milliseconds in one second.
pub const MILLIS_PER_SECOND: u128 = 1_000;

/// The total number of nanoseconds a `Duration` holds, as `Duration::as_nanos` reports it.
pub uninterp spec fn duration_nanos(d: Duration) -> u128;

/// Calls `Duration::as_nanos`, which returns the total number of whole nanoseconds in `d`.
#[verifier::external_body]
pub(crate) fn duration_as_nanos(d: &Duration) -> (n: u128)
    ensures
        n == duration_nanos(*d),
{
    d.as_nanos()
}

/// Calls `Duration::new(secs, nanos)`. With `nanos` below one second no carry happens, so the
/// new duration holds exactly `secs` seconds plus `nanos` nanoseconds.
#[verifier::external_body]
pub(crate) fn duration_new(secs: u64, nanos: u32) -> (d: Duration)
    requires
        nanos < 1_000_000_000,
    ensures
        duration_nanos(d) == secs as int * 1_000_000_000 + nanos as int,
{
    Duration::new(secs, nanos)
}

/// Calls `Duration::from_nanos`, which creates a duration of exactly `nanos` nanoseconds.
#[verifier::external_body]
pub(crate) fn duration_from_nanos(nanos: u64) -> (d: Duration)
    ensures
        duration_nanos(d) == nanos,
{
    Duration::from_nanos(nanos)
}

/// Calls `Duration::as_secs`, which returns the number of whole seconds in `d`.
#[verifier::external_body]
pub(crate) fn duration_as_secs(d: &Duration) -> (s: u64)
    ensures
        s == duration_nanos(*d) / NANOS_PER_SECOND,
{
    d.as_secs()
}

/// `ticks` counter ticks expressed in a unit of which there are `units_per_second` in one
/// second, for a counter running at `frequency` Hz (rounded down).
pub open spec fn ticks_in_units(ticks: int, frequency: int, units_per_second: int) -> int {
    (ticks * units_per_second) / frequency
}

/// The number of ticks, rounded up, that covers `nanos` nanoseconds at `frequency` Hz.
pub open spec fn ticks_covering_nanos(nanos: int, frequency: int) -> int {
    (nanos * frequency + (NANOS_PER_SECOND - 1)) / NANOS_PER_SECOND as int
}

/// Whether `nanos` nanoseconds fit in a `Duration` (whose whole seconds are a `u64`).
pub open spec fn nanos_fit_duration(nanos: int) -> bool {
    nanos / NANOS_PER_SECOND as int <= u64::MAX
}

/// Converts a tick count into units (nanoseconds, microseconds, ...) at `frequency` Hz,
/// rounding down.
pub fn ticks_to_unit(ticks: u64, frequency: u64, units_per_second: u128) -> (r: u128)
    requires
        frequency > 0,
        ticks as int * units_per_second <= u128::MAX,
    ensures
        r == ticks_in_units(ticks as int, frequency as int, units_per_second as int),
{
    (ticks as u128) * units_per_second / (frequency as u128)
}

/// Builds the `Duration` of `nanos` nanoseconds, or `None` when its whole seconds exceed
/// `u64::MAX`.
pub fn nanos_to_duration(nanos: u128) -> (r: Option<Duration>)
    ensures
        r is Some <==> nanos_fit_duration(nanos as int),
        r matches Some(d) ==> duration_nanos(d) == nanos,
{
    let secs = nanos / NANOS_PER_SECOND;
    if secs > u64::MAX as u128 {
        return None;
    }
    let subsec = nanos % NANOS_PER_SECOND;
    Some(duration_new(secs as u64, subsec as u32))
}

/// The largest `Duration`: `u64::MAX` seconds and 999,999,999 nanoseconds.
pub fn duration_max() -> (d: Duration)
    ensures
        duration_nanos(d) == u64::MAX as int * 1_000_000_000 + 999_999_999,
{
    duration_new(u64::MAX, 999_999_999)
}

/// The empty `Duration`.
pub fn duration_zero() -> (d: Duration)
    ensures
        duration_nanos(d) == 0,
{
    duration_new(0, 0)
}

/// A whole tick count always converts to a representable duration: at a frequency of at least
/// 1 Hz, `ticks` ticks last at most `ticks` seconds.
pub proof fn lemma_tick_nanos_fit_duration(ticks: u64, frequency: u64)
    requires
        frequency > 0,
    ensures
        ticks_in_units(ticks as int, frequency as int, NANOS_PER_SECOND as int) <= ticks as int * 1_000_000_000,
        nanos_fit_duration(ticks_in_units(ticks as int, frequency as int, NANOS_PER_SECOND as int)),
{
    let n = ticks as int * 1_000_000_000;
    lemma_div_is_ordered_by_denominator(n, 1, frequency as int);
    let q = n / frequency as int;
    lemma_div_is_ordered(q, n, 1_000_000_000);
    lemma_div_by_multiple(ticks as int, 1_000_000_000);
}

/// Converts a tick count into the `Duration` it spans at `frequency` Hz (rounded down to
/// whole nanoseconds), or `None` if it does not fit in a `Duration`.
pub fn ticks_to_duration(ticks: u64, frequency: u64) -> (r: Option<Duration>)
    requires
        frequency > 0,
    ensures
        r is Some,
        r matches Some(d) ==> duration_nanos(d) == ticks_in_units(ticks as int, frequency as int, NANOS_PER_SECOND as int),
{
    proof {
        lemma_tick_nanos_fit_duration(ticks, frequency);
    }
    nanos_to_duration(ticks_to_unit(ticks, frequency, NANOS_PER_SECOND))
}

/// Like [`ticks_to_duration`], but saturating at the largest `Duration`.
pub fn ticks_to_duration_saturating(ticks: u64, frequency: u64) -> (d: Duration)
    requires
        frequency > 0,
    ensures
        duration_nanos(d) == ticks_in_units(ticks as int, frequency as int, NANOS_PER_SECOND as int),
{
    proof {
        lemma_tick_nanos_fit_duration(ticks, frequency);
    }
    let nanos = ticks_to_unit(ticks, frequency, NANOS_PER_SECOND);
    match nanos_to_duration(nanos) {
        Some(d) => d,
        None => duration_max(),
    }
}

/// The number of ticks that covers `duration` at `frequency` Hz, rounding any partial tick
/// up. `None` when the intermediate product or the tick count overflows.
pub fn duration_to_ticks(duration: Duration, frequency: u64) -> (r: Option<u64>)
    ensures
        ({
            let nanos = duration_nanos(duration) as int;
            let product = nanos * frequency;
            &&& r is Some <==> (product <= u128::MAX && ticks_covering_nanos(nanos, frequency as int) <= u64::MAX)
            &&& r matches Some(t) ==> t == ticks_covering_nanos(nanos, frequency as int)
        }),
{
    let nanos = duration_as_nanos(&duration);
    let product = match nanos.checked_mul(frequency as u128) {
        Some(p) => p,
        None => return None,
    };
    let whole = product / NANOS_PER_SECOND;
    let ticks = if product % NANOS_PER_SECOND != 0 { whole + 1 } else { whole };
    assert(ticks == ticks_covering_nanos(nanos as int, frequency as int));
    if ticks > u64::MAX as u128 {
        None
    } else {
        Some(ticks as u64)
    }
}

/// Ticks to nanoseconds and back: at a frequency of at most 1 GHz, converting a tick count to
/// nanoseconds (rounding down) and back to ticks (rounding up) gives back the same count.
pub proof fn lemma_ticks_nanos_ticks_roundtrip(ticks: u64, frequency: u64)
    requires
        0 < frequency <= 1_000_000_000,
    ensures
        ticks_in_units(ticks as int, frequency as int, NANOS_PER_SECOND as int) * frequency <= u128::MAX,
        ticks_covering_nanos(ticks_in_units(ticks as int, frequency as int, NANOS_PER_SECOND as int), frequency as int) == ticks,
{
    lemma_tick_nanos_fit_duration(ticks, frequency);
    let n = ticks_in_units(ticks as int, frequency as int, NANOS_PER_SECOND as int);
    lemma_roundtrip_down_up(ticks as int, frequency as int, n);
}

proof fn lemma_roundtrip_down_up(t: int, f: int, n: int)
    by (nonlinear_arith)
    requires
        0 <= t <= u64::MAX,
        0 < f <= 1_000_000_000,
        n == (t * 1_000_000_000) / f,
        n <= t * 1_000_000_000,
    ensures
        n * f <= u128::MAX,
        (n * f + 999_999_999) / 1_000_000_000 == t,
{
    assert(n * f <= t * 1_000_000_000 < (n + 1) * f);
    assert(n * f <= 0xffff_ffff_ffff_ffff * 1_000_000_000 * 1_000_000_000);
}

/// Nanoseconds to ticks and back: at a frequency of at least 1 GHz, converting a nanosecond
/// count to ticks (rounding up) and back to nanoseconds (rounding down) gives back the same count.
pub proof fn lemma_nanos_ticks_nanos_roundtrip(nanos: nat, frequency: u64)
    requires
        frequency >= 1_000_000_000,
    ensures
        ticks_in_units(ticks_covering_nanos(nanos as int, frequency as int), frequency as int, NANOS_PER_SECOND as int) == nanos,
{
    let t = ticks_covering_nanos(nanos as int, frequency as int);
    lemma_roundtrip_up_down(nanos as int, frequency as int, t);
}

proof fn lemma_roundtrip_up_down(n: int, f: int, t: int)
    by (nonlinear_arith)
    requires
        n >= 0,
        f >= 1_000_000_000,
        t == (n * f + 999_999_999) / 1_000_000_000,
    ensures
        (t * 1_000_000_000) / f == n,
{
    assert(t * 1_000_000_000 <= n * f + 999_999_999 < (t + 1) * 1_000_000_000);
    assert(n * f <= t * 1_000_000_000 < (n + 1) * f);
}

/// Rounding up never loses time: the ticks chosen for `nanos` span at least `nanos`.
pub proof fn lemma_ticks_cover_nanos(nanos: nat, frequency: u64)
    ensures
        ticks_covering_nanos(nanos as int, frequency as int) * NANOS_PER_SECOND >= nanos * frequency,
        ticks_covering_nanos(nanos as int, frequency as int) * NANOS_PER_SECOND < nanos * frequency + NANOS_PER_SECOND,
{
    lemma_ceil_div_bounds(nanos * frequency, ticks_covering_nanos(nanos as int, frequency as int));
}

proof fn lemma_ceil_div_bounds(p: int, t: int)
    by (nonlinear_arith)
    requires
        p >= 0,
        t == (p + 999_999_999) / 1_000_000_000,
    ensures
        t * 1_000_000_000 >= p,
        t * 1_000_000_000 < p + 1_000_000_000,
{
}

} // verus!
