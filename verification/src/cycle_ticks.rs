//! Elapsed raw deltas of the selected cycle counter.

use core::time::Duration;
use vstd::prelude::*;

use crate::convert::{
    self, duration_nanos, ticks_in_units, MICROS_PER_SECOND, MILLIS_PER_SECOND, NANOS_PER_SECOND,
};
use crate::ticks::u64_modulus;
use crate::text::{decimal, decimal_with_suffix};
use vstd::std_specs::convert::{FromSpec, FromSpecImpl};
use vstd::std_specs::ops::{AddSpec, AddSpecImpl, DivSpec, DivSpecImpl, MulSpec, MulSpecImpl, SubSpec, SubSpecImpl};

verus! {

/// An elapsed raw cycle-counter delta, the delta type of [`crate::cycles::Cycles`].
///
/// It converts through the cycle-counter frequency, which callers pass in; on some machines that
/// counter differs from the one behind [`crate::instant::Instant`].
#[derive(Debug, Clone, Copy, PartialEq, Eq, PartialOrd, Ord, Hash)]
pub struct CycleTicks(u64);

impl View for CycleTicks {
    type V = u64;

    closed spec fn view(&self) -> u64 {
        self.0
    }
}

impl CycleTicks {
    /// Creates a `CycleTicks` value from a raw `u64` counter delta.
    pub fn from_raw(ticks: u64) -> (r: Self)
        ensures
            r@ == ticks,
    {
        CycleTicks(ticks)
    }

    /// Returns the underlying raw tick count.
    pub fn as_raw(&self) -> (r: u64)
        ensures
            r == self@,
    {
        self.0
    }

    /// Returns `true` if the tick count is zero.
    pub fn is_zero(&self) -> (r: bool)
        ensures
            r == (self@ == 0),
    {
        self.0 == 0
    }

    /// This tick count in nanoseconds at `frequency` Hz, rounded down.
    pub fn as_nanos(&self, frequency: u64) -> (r: u128)
        requires
            frequency > 0,
        ensures
            r == ticks_in_units(self@ as int, frequency as int, NANOS_PER_SECOND as int),
    {
        convert::ticks_to_unit(self.0, frequency, NANOS_PER_SECOND)
    }

    /// This tick count in microseconds at `frequency` Hz, rounded down.
    pub fn as_micros(&self, frequency: u64) -> (r: u128)
        requires
            frequency > 0,
        ensures
            r == ticks_in_units(self@ as int, frequency as int, MICROS_PER_SECOND as int),
    {
        convert::ticks_to_unit(self.0, frequency, MICROS_PER_SECOND)
    }

    /// This tick count in milliseconds at `frequency` Hz, rounded down.
    pub fn as_millis(&self, frequency: u64) -> (r: u128)
        requires
            frequency > 0,
        ensures
            r == ticks_in_units(self@ as int, frequency as int, MILLIS_PER_SECOND as int),
    {
        convert::ticks_to_unit(self.0, frequency, MILLIS_PER_SECOND)
    }

    /// This tick count as a `Duration` at `frequency` Hz, or `None` if it does not fit.
    /// A whole `u64` tick count always fits, so the result is always `Some`.
    pub fn checked_duration(&self, frequency: u64) -> (r: Option<Duration>)
        requires
            frequency > 0,
        ensures
            r is Some,
            r matches Some(d) ==> duration_nanos(d) == ticks_in_units(self@ as int, frequency as int, NANOS_PER_SECOND as int),
    {
        convert::ticks_to_duration(self.0, frequency)
    }

    /// This tick count as a `Duration` at `frequency` Hz, saturating at the largest duration.
    pub fn as_duration(&self, frequency: u64) -> (d: Duration)
        requires
            frequency > 0,
        ensures
            duration_nanos(d) == ticks_in_units(self@ as int, frequency as int, NANOS_PER_SECOND as int),
    {
        convert::ticks_to_duration_saturating(self.0, frequency)
    }

    /// Saturating subtraction: zero ticks on underflow.
    pub fn saturating_sub(&self, other: Self) -> (r: Self)
        ensures
            r@ == (if self@ >= other@ { self@ - other@ } else { 0 }),
    {
        CycleTicks(self.0.saturating_sub(other.0))
    }

    /// Wrapping subtraction, for counters that may have rolled over between samples.
    pub fn wrapping_sub(&self, other: Self) -> (r: Self)
        ensures
            r@ == (self@ - other@) % u64_modulus(),
    {
        CycleTicks(self.0.wrapping_sub(other.0))
    }

    /// Checked subtraction: `None` on underflow.
    pub fn checked_sub(&self, other: Self) -> (r: Option<Self>)
        ensures
            r is Some <==> self@ >= other@,
            r matches Some(v) ==> v@ == self@ - other@,
    {
        match self.0.checked_sub(other.0) {
            Some(v) => Some(CycleTicks(v)),
            None => None,
        }
    }

    /// Saturating addition: `u64::MAX` ticks on overflow.
    pub fn saturating_add(&self, other: Self) -> (r: Self)
        ensures
            r@ == (if self@ + other@ <= u64::MAX { self@ + other@ } else { u64::MAX as int }),
    {
        CycleTicks(self.0.saturating_add(other.0))
    }

    /// Wrapping addition.
    pub fn wrapping_add(&self, other: Self) -> (r: Self)
        ensures
            r@ == (self@ + other@) % u64_modulus(),
    {
        CycleTicks(self.0.wrapping_add(other.0))
    }

    /// Checked addition: `None` on overflow.
    pub fn checked_add(&self, other: Self) -> (r: Option<Self>)
        ensures
            r is Some <==> self@ + other@ <= u64::MAX,
            r matches Some(v) ==> v@ == self@ + other@,
    {
        match self.0.checked_add(other.0) {
            Some(v) => Some(CycleTicks(v)),
            None => None,
        }
    }

    /// The text form of this tick count, e.g. `"12345 cycles"`.
    pub fn to_string(&self) -> (s: String)
        ensures
            s@ == decimal(self@ as nat) + " cycles"@,
    {
        decimal_with_suffix(self.0, " cycles")
    }
}

impl Default for CycleTicks {
    fn default() -> (r: Self)
        ensures
            r@ == 0,
    {
        CycleTicks(0)
    }
}

/// The operators `+`, `-`, `* k` and `/ k` on `CycleTicks` act on the raw counts, and the `From`
/// conversions keep the raw count.
pub proof fn lemma_cycle_ticks_operators(a: CycleTicks, b: CycleTicks, k: u64, v: u64)
    ensures
        a@ + b@ <= u64::MAX ==> <CycleTicks as AddSpec>::add_spec(a, b)@ == a@ + b@,
        a@ >= b@ ==> <CycleTicks as SubSpec>::sub_spec(a, b)@ == a@ - b@,
        a@ * k <= u64::MAX ==> <CycleTicks as MulSpec<u64>>::mul_spec(a, k)@ == a@ * k,
        k != 0 ==> <CycleTicks as DivSpec<u64>>::div_spec(a, k)@ == a@ / k,
        <CycleTicks as FromSpec<u64>>::from_spec(v)@ == v,
        <u64 as FromSpec<CycleTicks>>::from_spec(a) == a@,
{
}

impl From<u64> for CycleTicks {
    fn from(ticks: u64) -> (r: Self) {
        CycleTicks(ticks)
    }
}

impl FromSpecImpl<u64> for CycleTicks {
    open spec fn obeys_from_spec() -> bool {
        true
    }

    closed spec fn from_spec(v: u64) -> Self {
        CycleTicks(v)
    }
}

impl From<CycleTicks> for u64 {
    fn from(ticks: CycleTicks) -> (r: Self) {
        ticks.0
    }
}

impl FromSpecImpl<CycleTicks> for u64 {
    open spec fn obeys_from_spec() -> bool {
        true
    }

    open spec fn from_spec(v: CycleTicks) -> u64 {
        v@
    }
}

impl core::ops::Add for CycleTicks {
    type Output = Self;

    fn add(self, other: Self) -> (r: Self) {
        CycleTicks(self.0 + other.0)
    }
}

impl AddSpecImpl for CycleTicks {
    open spec fn obeys_add_spec() -> bool {
        true
    }

    open spec fn add_req(self, rhs: Self) -> bool {
        self@ + rhs@ <= u64::MAX
    }

    closed spec fn add_spec(self, rhs: Self) -> Self {
        CycleTicks((self@ + rhs@) as u64)
    }
}

impl core::ops::Sub for CycleTicks {
    type Output = Self;

    fn sub(self, other: Self) -> (r: Self) {
        CycleTicks(self.0 - other.0)
    }
}

impl SubSpecImpl for CycleTicks {
    open spec fn obeys_sub_spec() -> bool {
        true
    }

    open spec fn sub_req(self, rhs: Self) -> bool {
        self@ >= rhs@
    }

    closed spec fn sub_spec(self, rhs: Self) -> Self {
        CycleTicks((self@ - rhs@) as u64)
    }
}

impl core::ops::Mul<u64> for CycleTicks {
    type Output = Self;

    fn mul(self, rhs: u64) -> (r: Self) {
        CycleTicks(self.0 * rhs)
    }
}

impl MulSpecImpl<u64> for CycleTicks {
    open spec fn obeys_mul_spec() -> bool {
        true
    }

    open spec fn mul_req(self, rhs: u64) -> bool {
        self@ * rhs <= u64::MAX
    }

    closed spec fn mul_spec(self, rhs: u64) -> Self {
        CycleTicks((self@ * rhs) as u64)
    }
}

impl core::ops::Div<u64> for CycleTicks {
    type Output = Self;

    fn div(self, rhs: u64) -> (r: Self) {
        CycleTicks(self.0 / rhs)
    }
}

impl DivSpecImpl<u64> for CycleTicks {
    open spec fn obeys_div_spec() -> bool {
        true
    }

    open spec fn div_req(self, rhs: u64) -> bool {
        rhs != 0
    }

    closed spec fn div_spec(self, rhs: u64) -> Self {
        CycleTicks((self@ / rhs) as u64)
    }
}

} // verus!
