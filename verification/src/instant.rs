//! Instants of the process-wide counter and the Q32 fixed-point tick-to-nanosecond scaling.

use core::time::Duration;
use vstd::prelude::*;

use crate::convert::{self, duration_nanos, ticks_in_units, NANOS_PER_SECOND};
use crate::ticks::u64_modulus;

verus! {

/// `2^32`, the fixed-point unit of the Q32 scale.
pub open spec fn q32_one() -> int {
    0x1_0000_0000
}

/// One second in nanoseconds, in Q32 fixed point: `1e9 << 32`.
pub const NANOS_PER_SECOND_Q32: u128 = 4_294_967_296_000_000_000;

/// The Q32 nanoseconds-per-tick scale for a counter at `frequency` Hz, before clamping to `u64`.
pub open spec fn q32_scale(frequency: int) -> int {
    NANOS_PER_SECOND_Q32 as int / frequency
}

/// The nanoseconds that `ticks` ticks span under the Q32 scale `scale`, clamped to `u64::MAX`.
pub open spec fn q32_nanos(ticks: int, scale: int) -> int {
    let exact = (ticks * scale) / q32_one();
    if exact <= u64::MAX { exact } else { u64::MAX as int }
}

/// The Q32 nanoseconds-per-tick scale for a counter running at `frequency` Hz:
/// `(1e9 << 32) / frequency`, clamped to `u64::MAX`.
pub fn nanos_per_tick_q32(frequency: u64) -> (scale: u64)
    requires
        frequency > 0,
    ensures
        scale == q32_scale(frequency as int),
{
    let scale = NANOS_PER_SECOND_Q32 / (frequency as u128);
    if scale > u64::MAX as u128 {
        u64::MAX
    } else {
        scale as u64
    }
}

/// The scale that a recalibration to `new_hz` installs: `None` (keep the current scale) when
/// the calibration produced zero.
pub fn recalibrate(new_hz: u64) -> (r: Option<u64>)
    ensures
        r is Some <==> new_hz > 0,
        r matches Some(scale) ==> scale == q32_scale(new_hz as int),
{
    if new_hz > 0 {
        Some(nanos_per_tick_q32(new_hz))
    } else {
        None
    }
}

/// Converts `ticks` to a `Duration` with the Q32 scale: `(ticks * scale) >> 32` nanoseconds,
/// clamped to `u64::MAX`.
pub fn ticks_to_duration(ticks: u64, nanos_per_tick_q32: u64) -> (d: Duration)
    ensures
        duration_nanos(d) == q32_nanos(ticks as int, nanos_per_tick_q32 as int),
{
    proof {
        vstd::arithmetic::mul::lemma_mul_upper_bound(ticks as int, u64::MAX as int, nanos_per_tick_q32 as int, u64::MAX as int);
    }
    let product = (ticks as u128) * (nanos_per_tick_q32 as u128);
    let wide = product / 0x1_0000_0000;
    let nanos = if wide > u64::MAX as u128 { u64::MAX } else { wide as u64 };
    if nanos < 1_000_000_000 {
        convert::duration_new(0, nanos as u32)
    } else {
        convert::duration_from_nanos(nanos)
    }
}

/// The Q32 conversion never reports more time than exact division by the frequency, and it
/// falls short by at most one nanosecond plus one nanosecond per `2^32` ticks, unless the
/// result was clamped at `u64::MAX` nanoseconds.
pub proof fn lemma_q32_conversion_error(ticks: u64, frequency: u64)
    requires
        frequency > 0,
    ensures
        q32_nanos(ticks as int, q32_scale(frequency as int)) <= ticks_in_units(ticks as int, frequency as int, NANOS_PER_SECOND as int),
        (ticks as int * q32_scale(frequency as int)) / q32_one() <= u64::MAX ==> ticks_in_units(ticks as int, frequency as int, NANOS_PER_SECOND as int)
            - q32_nanos(ticks as int, q32_scale(frequency as int)) <= ticks as int / q32_one() + 1,
{
    let t = ticks as int;
    let f = frequency as int;
    let n = NANOS_PER_SECOND_Q32 as int;
    let s = q32_scale(f);
    let q = (t * s) / q32_one();
    let e = ticks_in_units(t, f, NANOS_PER_SECOND as int);
    lemma_q32_bounds(t, f, n, s, q, e);
}

proof fn lemma_q32_bounds(t: int, f: int, n: int, s: int, q: int, e: int)
    by (nonlinear_arith)
    requires
        t >= 0,
        f > 0,
        n == 1_000_000_000 * 0x1_0000_0000,
        s == n / f,
        q == (t * s) / 0x1_0000_0000,
        e == (t * 1_000_000_000) / f,
    ensures
        q <= e,
        e - q <= t / 0x1_0000_0000 + 1,
{
    assert(s * f <= n && n < (s + 1) * f);
    assert(q * 0x1_0000_0000 <= t * s && t * s < (q + 1) * 0x1_0000_0000);
    assert(e * f <= t * 1_000_000_000 && t * 1_000_000_000 < (e + 1) * f);
    assert(q * 0x1_0000_0000 * f <= t * s * f);
    assert(t * s * f <= t * n);
    assert(q * f <= t * 1_000_000_000);
    assert(q <= e);
    let k = t / 0x1_0000_0000;
    assert(t < (k + 1) * 0x1_0000_0000);
    assert(t * n <= t * (s + 1) * f);
    assert(e * f * 0x1_0000_0000 <= t * n);
    assert(e * 0x1_0000_0000 <= t * (s + 1));
    assert(e * 0x1_0000_0000 < (q + 1) * 0x1_0000_0000 + t);
    assert(e * 0x1_0000_0000 < (q + 1) * 0x1_0000_0000 + (k + 1) * 0x1_0000_0000);
    assert(e < q + k + 2);
}

/// A longer tick span never converts to a shorter duration: the Q32 conversion is monotone
/// in the tick count for every scale, so two measurements within a process are ordered as
/// their tick spans are.
pub proof fn lemma_q32_monotone(shorter: u64, longer: u64, scale: u64)
    requires
        shorter <= longer,
    ensures
        q32_nanos(shorter as int, scale as int) <= q32_nanos(longer as int, scale as int),
{
    vstd::arithmetic::mul::lemma_mul_inequality(shorter as int, longer as int, scale as int);
    vstd::arithmetic::div_mod::lemma_div_is_ordered(shorter as int * scale as int, longer as int * scale as int, q32_one());
}

/// The elapsed time between two readings depends on the tick span between them alone, not on
/// where in the counter's range they were taken: shifting both readings by the same amount
/// (with wrap-around) leaves the converted duration unchanged, so an interval measured late in
/// the process carries the same conversion error as one measured early.
pub proof fn lemma_elapsed_depends_on_span_only(start: u64, now: u64, shift: u64, scale: u64)
    ensures
        q32_nanos(
            (((now + shift) % u64_modulus()) - ((start + shift) % u64_modulus())) % u64_modulus(),
            scale as int,
        ) == q32_nanos((now - start) % u64_modulus(), scale as int),
{
    let m = u64_modulus();
    let a = now + shift;
    let b = start + shift;
    vstd::arithmetic::div_mod::lemma_sub_mod_noop(a, b, m);
    assert(a - b == now - start);
}

/// Measurements within the process are consistent with each other: splitting a span of ticks
/// into two consecutive parts and converting each gives the conversion of the whole, less at
/// most one nanosecond of rounding (when the whole is not clamped at `u64::MAX` nanoseconds).
pub proof fn lemma_q32_split_consistent(first: u64, second: u64, scale: u64)
    requires
        ((first + second) * scale as int) / q32_one() <= u64::MAX,
    ensures
        q32_nanos(first as int, scale as int) + q32_nanos(second as int, scale as int) <= q32_nanos(
            first + second,
            scale as int,
        ),
        q32_nanos(first + second, scale as int) <= q32_nanos(first as int, scale as int) + q32_nanos(
            second as int,
            scale as int,
        ) + 1,
{
    let a = first as int * scale as int;
    let b = second as int * scale as int;
    assert((first + second) * scale as int == a + b && 0 <= a && 0 <= b) by (nonlinear_arith)
        requires
            a == first as int * scale as int,
            b == second as int * scale as int,
    ;
    vstd::arithmetic::div_mod::lemma_div_is_ordered(a, a + b, q32_one());
    vstd::arithmetic::div_mod::lemma_div_is_ordered(b, a + b, q32_one());
    lemma_floor_split(a, b, q32_one());
}

proof fn lemma_floor_split(a: int, b: int, m: int)
    by (nonlinear_arith)
    requires
        0 <= a,
        0 <= b,
        0 < m,
    ensures
        a / m + b / m <= (a + b) / m <= a / m + b / m + 1,
{
    assert(a == m * (a / m) + a % m && 0 <= a % m < m);
    assert(b == m * (b / m) + b % m && 0 <= b % m < m);
    assert(a + b == m * ((a + b) / m) + (a + b) % m && 0 <= (a + b) % m < m);
}

/// A sampled point in the process-wide counter timeline, a drop-in for a monotonic instant.
///
/// It is wall-clock-rate: it keeps ticking through park, suspension and descheduling. The
/// counter reading and the Q32 scale come from the caller.
#[derive(Debug, Clone, Copy, PartialEq, Eq, PartialOrd, Ord, Hash)]
pub struct Instant(u64);

impl View for Instant {
    type V = u64;

    closed spec fn view(&self) -> u64 {
        self.0
    }
}

impl Instant {
    /// The instant at raw counter reading `ticks`.
    pub fn from_raw_ticks(ticks: u64) -> (r: Self)
        ensures
            r@ == ticks,
    {
        Instant(ticks)
    }

    /// The duration from `self` to the later reading `now`, converted with the Q32 scale
    /// `nanos_per_tick_q32`. The tick delta wraps, as the counter may roll over.
    pub fn elapsed(&self, now: Self, nanos_per_tick_q32: u64) -> (d: Duration)
        ensures
            duration_nanos(d) == q32_nanos((now@ - self@) % u64_modulus(), nanos_per_tick_q32 as int),
    {
        ticks_to_duration(now.0.wrapping_sub(self.0), nanos_per_tick_q32)
    }
}

/// An instant whose reading was taken behind an instruction-ordering barrier, so it cannot
/// have been sampled before an earlier acquire-or-stronger observation.
#[derive(Debug, Clone, Copy, PartialEq, Eq, PartialOrd, Ord, Hash)]
pub struct OrderedInstant(u64);

impl View for OrderedInstant {
    type V = u64;

    closed spec fn view(&self) -> u64 {
        self.0
    }
}

impl OrderedInstant {
    /// The ordered instant at raw counter reading `ticks`.
    pub fn from_raw_ticks(ticks: u64) -> (r: Self)
        ensures
            r@ == ticks,
    {
        OrderedInstant(ticks)
    }

    /// The duration from `self` to the later ordered reading `now`.
    pub fn elapsed(&self, now: Self, nanos_per_tick_q32: u64) -> (d: Duration)
        ensures
            duration_nanos(d) == q32_nanos((now@ - self@) % u64_modulus(), nanos_per_tick_q32 as int),
    {
        ticks_to_duration(now.0.wrapping_sub(self.0), nanos_per_tick_q32)
    }

    /// The duration from `self` to a later reading `now` that was taken without ordering.
    pub fn elapsed_unordered(&self, now: Instant, nanos_per_tick_q32: u64) -> (d: Duration)
        ensures
            duration_nanos(d) == q32_nanos((now@ - self@) % u64_modulus(), nanos_per_tick_q32 as int),
    {
        ticks_to_duration(now.as_raw_ticks().wrapping_sub(self.0), nanos_per_tick_q32)
    }

    /// Drops the ordering guarantee: a plain [`Instant`] with the same tick value. There is no
    /// inverse, since an unordered reading cannot be promoted.
    pub fn as_unordered(&self) -> (r: Instant)
        ensures
            r@ == self@,
    {
        Instant::from_raw_ticks(self.0)
    }
}

impl Instant {
    fn as_raw_ticks(&self) -> (r: u64)
        ensures
            r == self@,
    {
        self.0
    }
}

} // verus!
