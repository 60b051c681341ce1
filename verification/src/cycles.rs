//! Samples of the selected cycle counter.

use core::time::Duration;
use vstd::prelude::*;

use crate::convert::{
    self, duration_nanos, ticks_covering_nanos, ticks_in_units, NANOS_PER_SECOND,
};
use crate::cycle_ticks::CycleTicks;
use crate::text::{decimal, decimal_with_suffix};
use crate::ticks::u64_modulus;
use vstd::std_specs::convert::{FromSpec, FromSpecImpl};
use vstd::std_specs::ops::{AddSpec, AddSpecImpl, SubSpec, SubSpecImpl};

verus! {

/// A sampled point in the selected cycle-counter timeline.
///
/// `Cycles` is the lower-level sibling of [`crate::instant::Instant`], meant for same-thread
/// hot-loop timing. Readings of the counter and its frequency come from the caller.
#[derive(Debug, Clone, Copy, PartialEq, Eq, PartialOrd, Ord, Hash)]
pub struct Cycles(u64);

impl View for Cycles {
    type V = u64;

    closed spec fn view(&self) -> u64 {
        self.0
    }
}

/// The tick count that `checked_add` / `checked_sub` move by for `duration` at `frequency` Hz,
/// when it exists.
pub open spec fn duration_ticks(duration: Duration, frequency: u64) -> Option<int> {
    let nanos = duration_nanos(duration) as int;
    let ticks = ticks_covering_nanos(nanos, frequency as int);
    if nanos * frequency <= u128::MAX && ticks <= u64::MAX {
        Some(ticks)
    } else {
        None
    }
}

impl Cycles {
    /// Creates a `Cycles` value from a raw `u64` counter reading.
    pub fn from_raw(ticks: u64) -> (r: Self)
        ensures
            r@ == ticks,
    {
        Cycles(ticks)
    }

    /// Returns the underlying raw counter reading.
    pub fn as_raw(&self) -> (r: u64)
        ensures
            r == self@,
    {
        self.0
    }

    /// Returns `true` if the counter reading is zero.
    pub fn is_zero(&self) -> (r: bool)
        ensures
            r == (self@ == 0),
    {
        self.0 == 0
    }

    /// The duration elapsed from `self` to the reading `now`, at `frequency` Hz; zero if `now`
    /// is earlier than `self`.
    pub fn elapsed(&self, now: Self, frequency: u64) -> (d: Duration)
        requires
            frequency > 0,
        ensures
            duration_nanos(d) == (if now@ >= self@ {
                ticks_in_units(now@ - self@, frequency as int, NANOS_PER_SECOND as int)
            } else {
                0
            }),
    {
        now.duration_since(*self, frequency)
    }

    /// The raw counter delta from `self` to the reading `now`, wrapping on underflow.
    pub fn elapsed_ticks(&self, now: Self) -> (r: CycleTicks)
        ensures
            r@ == (now@ - self@) % u64_modulus(),
    {
        now.wrapping_ticks_since(*self)
    }

    /// The elapsed duration since `earlier` at `frequency` Hz, zero if `earlier` is later.
    pub fn duration_since(&self, earlier: Self, frequency: u64) -> (d: Duration)
        requires
            frequency > 0,
        ensures
            duration_nanos(d) == (if self@ >= earlier@ {
                ticks_in_units(self@ - earlier@, frequency as int, NANOS_PER_SECOND as int)
            } else {
                0
            }),
    {
        self.saturating_duration_since(earlier, frequency)
    }

    /// The elapsed duration since `earlier` at `frequency` Hz, or `None` if `earlier` is later.
    pub fn checked_duration_since(&self, earlier: Self, frequency: u64) -> (r: Option<Duration>)
        requires
            frequency > 0,
        ensures
            r is Some <==> self@ >= earlier@,
            r matches Some(d) ==> duration_nanos(d) == ticks_in_units(self@ - earlier@, frequency as int, NANOS_PER_SECOND as int),
    {
        match self.checked_ticks_since(earlier) {
            Some(ticks) => ticks.checked_duration(frequency),
            None => None,
        }
    }

    /// The elapsed duration since `earlier` at `frequency` Hz, zero if `earlier` is later.
    pub fn saturating_duration_since(&self, earlier: Self, frequency: u64) -> (d: Duration)
        requires
            frequency > 0,
        ensures
            duration_nanos(d) == (if self@ >= earlier@ {
                ticks_in_units(self@ - earlier@, frequency as int, NANOS_PER_SECOND as int)
            } else {
                0
            }),
    {
        match self.checked_ticks_since(earlier) {
            Some(ticks) => ticks.as_duration(frequency),
            None => convert::duration_zero(),
        }
    }

    /// The raw counter delta since `earlier`, zero if `earlier` is later.
    pub fn ticks_since(&self, earlier: Self) -> (r: CycleTicks)
        ensures
            r@ == (if self@ >= earlier@ { self@ - earlier@ } else { 0 }),
    {
        self.saturating_ticks_since(earlier)
    }

    /// The raw counter delta since `earlier`, zero if `earlier` is later.
    pub fn saturating_ticks_since(&self, earlier: Self) -> (r: CycleTicks)
        ensures
            r@ == (if self@ >= earlier@ { self@ - earlier@ } else { 0 }),
    {
        CycleTicks::from_raw(self.0.saturating_sub(earlier.0))
    }

    /// The raw counter delta since `earlier`, wrapping on underflow.
    pub fn wrapping_ticks_since(&self, earlier: Self) -> (r: CycleTicks)
        ensures
            r@ == (self@ - earlier@) % u64_modulus(),
    {
        CycleTicks::from_raw(self.0.wrapping_sub(earlier.0))
    }

    /// The raw counter delta since `earlier`, or `None` if `earlier` is later.
    pub fn checked_ticks_since(&self, earlier: Self) -> (r: Option<CycleTicks>)
        ensures
            r is Some <==> self@ >= earlier@,
            r matches Some(t) ==> t@ == self@ - earlier@,
    {
        match self.0.checked_sub(earlier.0) {
            Some(ticks) => Some(CycleTicks::from_raw(ticks)),
            None => None,
        }
    }

    /// `self` moved forward by `duration` at `frequency` Hz (partial ticks round up), or `None`
    /// if the tick count or the result overflows.
    pub fn checked_add(&self, duration: Duration, frequency: u64) -> (r: Option<Self>)
        ensures
            r is Some <==> (duration_ticks(duration, frequency) matches Some(t) && self@ + t <= u64::MAX),
            r matches Some(c) ==> c@ == self@ + duration_ticks(duration, frequency)->0,
    {
        match convert::duration_to_ticks(duration, frequency) {
            Some(ticks) => self.checked_add_ticks(CycleTicks::from_raw(ticks)),
            None => None,
        }
    }

    /// `self` moved back by `duration` at `frequency` Hz (partial ticks round up), or `None`
    /// if the tick count overflows or the result underflows.
    pub fn checked_sub(&self, duration: Duration, frequency: u64) -> (r: Option<Self>)
        ensures
            r is Some <==> (duration_ticks(duration, frequency) matches Some(t) && self@ >= t),
            r matches Some(c) ==> c@ == self@ - duration_ticks(duration, frequency)->0,
    {
        match convert::duration_to_ticks(duration, frequency) {
            Some(ticks) => self.checked_sub_ticks(CycleTicks::from_raw(ticks)),
            None => None,
        }
    }

    /// `self + ticks`, or `None` on overflow.
    pub fn checked_add_ticks(&self, ticks: CycleTicks) -> (r: Option<Self>)
        ensures
            r is Some <==> self@ + ticks@ <= u64::MAX,
            r matches Some(c) ==> c@ == self@ + ticks@,
    {
        match self.0.checked_add(ticks.as_raw()) {
            Some(value) => Some(Cycles(value)),
            None => None,
        }
    }

    /// `self - ticks`, or `None` on underflow.
    pub fn checked_sub_ticks(&self, ticks: CycleTicks) -> (r: Option<Self>)
        ensures
            r is Some <==> self@ >= ticks@,
            r matches Some(c) ==> c@ == self@ - ticks@,
    {
        match self.0.checked_sub(ticks.as_raw()) {
            Some(value) => Some(Cycles(value)),
            None => None,
        }
    }

    /// `self + ticks`, saturating at `u64::MAX`.
    pub fn saturating_add_ticks(&self, ticks: CycleTicks) -> (r: Self)
        ensures
            r@ == (if self@ + ticks@ <= u64::MAX { self@ + ticks@ } else { u64::MAX as int }),
    {
        Cycles(self.0.saturating_add(ticks.as_raw()))
    }

    /// `self - ticks`, saturating at zero.
    pub fn saturating_sub_ticks(&self, ticks: CycleTicks) -> (r: Self)
        ensures
            r@ == (if self@ >= ticks@ { self@ - ticks@ } else { 0 }),
    {
        Cycles(self.0.saturating_sub(ticks.as_raw()))
    }

    /// Replaces this sample with the fresh reading `now`.
    pub fn reset(&mut self, now: Self)
        ensures
            *final(self) == now,
    {
        *self = now;
    }

    /// The text form of this reading, e.g. `"12345 cycles"`.
    pub fn to_string(&self) -> (s: String)
        ensures
            s@ == decimal(self@ as nat) + " cycles"@,
    {
        decimal_with_suffix(self.0, " cycles")
    }
}

impl Default for Cycles {
    fn default() -> (r: Self)
        ensures
            r@ == 0,
    {
        Cycles(0)
    }
}

/// A duration measured in whole ticks moves a sample by exactly those ticks: at a frequency
/// of at most 1 GHz, the duration that `ticks` span (as `CycleTicks::as_duration` reports it)
/// converts back to `ticks` ticks, so `checked_add` / `checked_sub` with it agree with
/// `checked_add_ticks` / `checked_sub_ticks`.
pub proof fn lemma_duration_of_ticks_moves_by_ticks(d: Duration, ticks: CycleTicks, frequency: u64)
    requires
        0 < frequency <= 1_000_000_000,
        duration_nanos(d) == ticks_in_units(ticks@ as int, frequency as int, NANOS_PER_SECOND as int),
    ensures
        duration_ticks(d, frequency) == Some(ticks@ as int),
{
    convert::lemma_ticks_nanos_ticks_roundtrip(ticks@, frequency);
}

/// The wrapping delta since an earlier sample, added back modulo `2^64`, gives the later
/// sample again, even across a counter rollover.
pub proof fn lemma_wrapping_delta_adds_back(later: Cycles, earlier: Cycles)
    ensures
        (earlier@ + (later@ - earlier@) % u64_modulus()) % u64_modulus() == later@,
{
    vstd::arithmetic::div_mod::lemma_add_mod_noop(earlier@ as int, (later@ - earlier@) as int, u64_modulus());
    vstd::arithmetic::div_mod::lemma_mod_twice((later@ - earlier@) as int, u64_modulus());
    vstd::arithmetic::div_mod::lemma_add_mod_noop(earlier@ as int, (later@ - earlier@) as int, u64_modulus());
    vstd::arithmetic::div_mod::lemma_small_mod(later@ as nat, u64_modulus() as nat);
}

/// `+ ticks` and `- ticks` on `Cycles` move the raw reading, and the `From` conversions keep it.
pub proof fn lemma_cycles_operators(c: Cycles, t: CycleTicks, v: u64)
    ensures
        c@ + t@ <= u64::MAX ==> <Cycles as AddSpec<CycleTicks>>::add_spec(c, t)@ == c@ + t@,
        c@ >= t@ ==> <Cycles as SubSpec<CycleTicks>>::sub_spec(c, t)@ == c@ - t@,
        <Cycles as FromSpec<u64>>::from_spec(v)@ == v,
        <u64 as FromSpec<Cycles>>::from_spec(c) == c@,
{
}

impl From<u64> for Cycles {
    fn from(ticks: u64) -> (r: Self) {
        Cycles(ticks)
    }
}

impl FromSpecImpl<u64> for Cycles {
    open spec fn obeys_from_spec() -> bool {
        true
    }

    closed spec fn from_spec(v: u64) -> Self {
        Cycles(v)
    }
}

impl From<Cycles> for u64 {
    fn from(cycles: Cycles) -> (r: Self) {
        cycles.0
    }
}

impl FromSpecImpl<Cycles> for u64 {
    open spec fn obeys_from_spec() -> bool {
        true
    }

    open spec fn from_spec(v: Cycles) -> u64 {
        v@
    }
}

impl core::ops::Add<CycleTicks> for Cycles {
    type Output = Self;

    fn add(self, ticks: CycleTicks) -> (r: Self) {
        Cycles(self.0 + ticks.as_raw())
    }
}

impl AddSpecImpl<CycleTicks> for Cycles {
    open spec fn obeys_add_spec() -> bool {
        true
    }

    open spec fn add_req(self, rhs: CycleTicks) -> bool {
        self@ + rhs@ <= u64::MAX
    }

    closed spec fn add_spec(self, rhs: CycleTicks) -> Self {
        Cycles((self@ + rhs@) as u64)
    }
}

impl core::ops::Sub<CycleTicks> for Cycles {
    type Output = Self;

    fn sub(self, ticks: CycleTicks) -> (r: Self) {
        Cycles(self.0 - ticks.as_raw())
    }
}

impl SubSpecImpl<CycleTicks> for Cycles {
    open spec fn obeys_sub_spec() -> bool {
        true
    }

    open spec fn sub_req(self, rhs: CycleTicks) -> bool {
        self@ >= rhs@
    }

    closed spec fn sub_spec(self, rhs: CycleTicks) -> Self {
        Cycles((self@ - rhs@) as u64)
    }
}

} // verus!
