//! The aarch64 Linux `Cycles` call-site layout: 4-byte stubs that become either an inline
//! `mrs x0, cntvct_el0` or a `bl` to a trampoline.

use vstd::prelude::*;

use crate::stub::{
    aarch64_bl_word, aarch64_cntvct_seq, bytes_equal, bytes_of, bytes_view, le_bytes32, le_value32,
    lemma_word_bytes_roundtrip, planned, signed26, twos32, twos_complement, word_bytes, StubAction,
};
use crate::patch::{branch_units, branch_words};

verus! {

/// Length of an aarch64 stub.
pub const PATCH_LEN: usize = 4;

/// `mrs x0, cntvct_el0` in little-endian byte order.
pub const CNTVCT_BYTES: [u8; 4] = [0x40, 0xE0, 0x3B, 0xD5];

/// Index of the virtual counter in this layout.
pub const CNTVCT: u8 = 0;
/// Index of the operating-system monotonic clock in this layout.
pub const CLOCK_MONOTONIC: u8 = 1;
/// Index of the perf-event PMU cycle counter in this layout.
pub const PERF_PMCCNTR: u8 = 2;

/// Addresses recorded for one aarch64 Linux `Cycles` call site.
#[derive(Clone, Copy, Debug, PartialEq, Eq)]
pub struct CallsiteRecord {
    pub patch_address: usize,
    pub cold_address: usize,
    pub fallback_address: usize,
    pub perf_pmccntr_address: usize,
}

/// The bytes of a `bl` from `from` to `to`, when the target is a whole number of words away
/// within the signed 26-bit word range.
pub open spec fn bl_spec(from: int, to: int) -> Option<Seq<u8>> {
    match branch_units(from, to, 2, 26) {
        Some(o) => Some(le_bytes32(aarch64_bl_word(o))),
        None => None,
    }
}

/// The stub bytes once counter `selected` is chosen: inline `mrs` for the virtual counter, a
/// `bl` to the matching trampoline otherwise; `None` for an unknown index.
pub open spec fn selected_stub_spec(record: CallsiteRecord, selected: u8) -> Option<Seq<u8>> {
    if selected == CNTVCT {
        Some(aarch64_cntvct_seq())
    } else if selected == CLOCK_MONOTONIC {
        bl_spec(record.patch_address as int, record.fallback_address as int)
    } else if selected == PERF_PMCCNTR {
        bl_spec(record.patch_address as int, record.perf_pmccntr_address as int)
    } else {
        None
    }
}

/// Where the processor goes from `from` after the bytes `b` when they are a `BL` (top six bits
/// `100101`): `from` plus four times the signed 26-bit field.
pub open spec fn bl_destination(from: int, b: Seq<u8>) -> Option<int> {
    let w = le_value32(b);
    if b.len() == 4 && w / 0x400_0000 == 37 {
        Some(from + 4 * signed26(w % 0x400_0000))
    } else {
        None
    }
}

/// A `bl` stub calls the trampoline it was made for: decoding its bytes as the processor does
/// gives the target back.
pub proof fn lemma_bl_reaches_target(from: int, to: int)
    requires
        bl_spec(from, to) is Some,
    ensures
        bl_destination(from, bl_spec(from, to)->0) == Some(to),
{
    vstd::arithmetic::power2::lemma2_to64();
    let o = branch_units(from, to, 2, 26)->0;
    let w = aarch64_bl_word(o);
    lemma_word_bytes_roundtrip(w as u32);
    assert(w % 0x400_0000 == twos32(o) % 0x400_0000);
}

fn aarch64_bl(offset: i32) -> (w: u32)
    requires
        -0x200_0000 <= offset < 0x200_0000,
    ensures
        w == aarch64_bl_word(offset as int),
{
    let imm = twos_complement(offset) & 0x03FF_FFFF;
    let w = 0x9400_0000u32 | imm;
    let t = twos_complement(offset);
    assert(w == 0x9400_0000u32 + t % 0x400_0000) by (bit_vector)
        requires
            w == 0x9400_0000u32 | (t & 0x03FF_FFFF),
    ;
    w
}

/// The bytes of a `bl` from `from` to `to`, or `None` when out of reach.
pub fn bl_bytes(from: usize, to: usize) -> (r: Option<Vec<u8>>)
    ensures
        bytes_view(r) == bl_spec(from as int, to as int),
{
    match branch_words(from, to, 2, 26) {
        Some(o) => {
            proof {
                vstd::arithmetic::power2::lemma2_to64();
            }
            Some(word_bytes(aarch64_bl(o), false))
        },
        None => None,
    }
}

/// The stub bytes once counter `selected` is chosen.
pub fn selected_stub_bytes(record: &CallsiteRecord, selected: u8) -> (r: Option<Vec<u8>>)
    ensures
        bytes_view(r) == selected_stub_spec(*record, selected),
{
    if selected == CNTVCT {
        let b = bytes_of(&CNTVCT_BYTES);
        assert(b@ =~= aarch64_cntvct_seq());
        Some(b)
    } else if selected == CLOCK_MONOTONIC {
        bl_bytes(record.patch_address, record.fallback_address)
    } else if selected == PERF_PMCCNTR {
        bl_bytes(record.patch_address, record.perf_pmccntr_address)
    } else {
        None
    }
}

/// Decides what to do with the stub of `record`, which currently holds `current`; an unpatched
/// stub is a `bl` to the cold selection path.
pub fn plan_callsite(record: &CallsiteRecord, selected: u8, current: &[u8]) -> (a: StubAction)
    ensures
        planned(
            a,
            current@,
            selected_stub_spec(*record, selected),
            bl_spec(record.patch_address as int, record.cold_address as int),
        ),
{
    let selected_bytes = match selected_stub_bytes(record, selected) {
        Some(b) => b,
        None => return StubAction::Fail,
    };
    let unselected_bytes = match bl_bytes(record.patch_address, record.cold_address) {
        Some(b) => b,
        None => return StubAction::Fail,
    };
    if bytes_equal(current, selected_bytes.as_slice()) {
        return StubAction::Keep;
    }
    if !bytes_equal(current, unselected_bytes.as_slice()) {
        return StubAction::Fail;
    }
    StubAction::Write(selected_bytes)
}

} // verus!
