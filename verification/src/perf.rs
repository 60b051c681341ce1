//! Reading hardware cycle counters through Linux perf events: the capability bits, the
//! sign extension of raw counter values, and the seqlock protocol of the metadata page.

use vstd::arithmetic::power2::pow2;
use vstd::bits::{lemma_u64_low_bits_mask_is_mod, lemma_u64_pow2_no_overflow, lemma_u64_shl_is_mul, low_bits_mask};
use vstd::prelude::*;

use crate::stub::{bytes_equal, bytes_of, le_bytes32, push_le_bytes32};
use crate::textual::{chars_of, parse_u64, parsed_u64, trim_bounds, trimmed};

verus! {

proof fn lemma_sign_extend_bits(v: u64, s: u64, w: u64, h: u64, mask: u64)
    by (bit_vector)
    requires
        1 <= s < 64,
        w == 64 - s,
        h == 63 - s,
        mask + 1 == (1u64 << w),
    ensures
        (((v << s) as i64) >> s) as int == (if (v & mask) >= (1u64 << h) {
            (v & mask) - (1u64 << w)
        } else {
            ((v & mask)) as int
        }),
{
}

/// The value of the low `width` bits of `value` read as a two's-complement number (all 64 bits
/// when `width` is 64 or more).
pub open spec fn sign_extended(value: u64, width: nat) -> int {
    if width >= 64 {
        if value < 0x8000_0000_0000_0000 { value as int } else { value - 0x1_0000_0000_0000_0000 }
    } else {
        let m = (value as nat) % pow2(width);
        if m >= pow2((width - 1) as nat) { m - pow2(width) } else { m as int }
    }
}

/// Sign-extends the low `width` bits of a raw counter value.
pub fn sign_extend(value: u64, width: u16) -> (r: i64)
    requires
        width > 0,
    ensures
        r == sign_extended(value, width as nat),
{
    let shift: u64 = if width as u64 >= 64 { 0 } else { 64 - width as u64 };
    let r = ((value << shift) as i64) >> shift;
    if shift == 0 {
        assert((((value << 0u64) as i64) >> 0u64) as int == (if value < 0x8000_0000_0000_0000u64 {
            value as int
        } else {
            value - 0x1_0000_0000_0000_0000
        })) by (bit_vector);
    } else {
        let w = 64 - shift;
        let h = 63 - shift;
        proof {
            lemma_u64_pow2_no_overflow(w as nat);
            lemma_u64_shl_is_mul(1, w);
            lemma_u64_pow2_no_overflow(h as nat);
            lemma_u64_shl_is_mul(1, h);
            vstd::arithmetic::power2::lemma_pow2_pos(w as nat);
        }
        let mask = ((1u64 << w) - 1) as u64;
        proof {
            lemma_sign_extend_bits(value, shift, w, h, mask);
            assert(low_bits_mask(w as nat) as u64 == mask);
            lemma_u64_low_bits_mask_is_mod(value, w as nat);
        }
    }
    r
}

/// The leading fields of the perf event attributes, as opened for counting CPU cycles.
#[derive(Clone, Copy, Debug, PartialEq, Eq)]
pub struct PerfEventAttr {
    pub type_: u32,
    pub size: u32,
    pub config: u64,
    pub sample_period: u64,
    pub sample_type: u64,
    pub read_format: u64,
    pub flags: u64,
    pub wakeup_events: u32,
    pub bp_type: u32,
    pub bp_addr: u64,
    pub bp_len: u64,
}

/// The hardware event type.
pub const PERF_TYPE_HARDWARE: u32 = 0;
/// The CPU-cycles hardware event.
pub const PERF_COUNT_HW_CPU_CYCLES: u64 = 0;
/// Attribute flag: do not count in kernel mode.
pub const PERF_ATTR_FLAG_EXCLUDE_KERNEL: u64 = 32;
/// Attribute flag: do not count in hypervisor mode.
pub const PERF_ATTR_FLAG_EXCLUDE_HV: u64 = 64;
/// The index Linux reports for the aarch64 PMUv3 cycle counter.
pub const ARM_PMU_CYCLE_COUNTER_INDEX: u32 = 32;
/// Snapshots tried before giving up on a read.
pub const READ_ATTEMPTS: usize = 100;

/// Attributes of a user-space CPU-cycles event (kernel and hypervisor excluded) whose structure
/// is `size` bytes long (flags 96: both exclusion bits); every other field is zero.
pub fn cpu_cycles_event(size: u32) -> (a: PerfEventAttr)
    ensures
        a == (PerfEventAttr {
            type_: PERF_TYPE_HARDWARE,
            size,
            config: PERF_COUNT_HW_CPU_CYCLES,
            sample_period: 0,
            sample_type: 0,
            read_format: 0,
            flags: 96,
            wakeup_events: 0,
            bp_type: 0,
            bp_addr: 0,
            bp_len: 0,
        }),
{
    let a = PerfEventAttr {
        type_: PERF_TYPE_HARDWARE,
        size,
        config: PERF_COUNT_HW_CPU_CYCLES,
        sample_period: 0,
        sample_type: 0,
        read_format: 0,
        flags: PERF_ATTR_FLAG_EXCLUDE_KERNEL | PERF_ATTR_FLAG_EXCLUDE_HV,
        wakeup_events: 0,
        bp_type: 0,
        bp_addr: 0,
        bp_len: 0,
    };
    assert((32u64 | 64u64) == 96u64) by (bit_vector);
    a
}

/// The fields of the perf metadata page, as one snapshot read them.
#[derive(Clone, Copy, Debug, PartialEq, Eq)]
pub struct PerfEventMmapPage {
    pub version: u32,
    pub compat_version: u32,
    pub lock: u32,
    pub index: u32,
    pub offset: i64,
    pub time_enabled: u64,
    pub time_running: u64,
    pub capabilities: u64,
    pub pmc_width: u16,
    pub time_shift: u16,
    pub time_mult: u32,
    pub time_offset: u64,
}

/// Whether the metadata capabilities allow reading the counter from user space: the
/// `cap_user_rdpmc` bit (bit 2) when bit 1 says bit 0 is deprecated, the legacy bit 0 otherwise.
pub open spec fn user_rdpmc_allowed(capabilities: u64) -> bool {
    if (capabilities / 2) % 2 == 1 {
        (capabilities / 4) % 2 == 1
    } else {
        capabilities % 2 == 1
    }
}

/// Whether user-space counter reads are allowed by `capabilities`.
pub fn cap_user_rdpmc(capabilities: u64) -> (r: bool)
    ensures
        r == user_rdpmc_allowed(capabilities),
{
    assert(((capabilities & 2) != 0) == ((capabilities / 2) % 2 == 1)) by (bit_vector);
    assert(((capabilities & 4) != 0) == ((capabilities / 4) % 2 == 1)) by (bit_vector);
    assert(((capabilities & 1) != 0) == (capabilities % 2 == 1)) by (bit_vector);
    if capabilities & 2 != 0 {
        capabilities & 4 != 0
    } else {
        capabilities & 1 != 0
    }
}

/// The `rdpmc` counter number for the event in `page`: the page's one-based index minus one,
/// when the index is set, user reads are allowed and the counter width is known.
pub fn rdpmc_counter(page: &PerfEventMmapPage) -> (r: Option<u32>)
    ensures
        r is Some <==> (page.index != 0 && user_rdpmc_allowed(page.capabilities) && page.pmc_width > 0),
        r matches Some(c) ==> c == page.index - 1,
{
    if page.index != 0 && cap_user_rdpmc(page.capabilities) && page.pmc_width > 0 {
        Some(page.index - 1)
    } else {
        None
    }
}

/// Whether the event in `page` is the aarch64 PMU cycle counter and may be read from user space.
pub fn pmccntr_readable(page: &PerfEventMmapPage) -> (r: bool)
    ensures
        r == (page.index == ARM_PMU_CYCLE_COUNTER_INDEX && user_rdpmc_allowed(page.capabilities) && page.pmc_width > 0),
{
    page.index == ARM_PMU_CYCLE_COUNTER_INDEX && cap_user_rdpmc(page.capabilities) && page.pmc_width > 0
}

/// The event count: the page offset plus the sign-extended raw counter value, modulo `2^64`.
pub fn perf_count(offset: i64, pmc: u64, width: u16) -> (count: u64)
    requires
        width > 0,
    ensures
        count == (offset + sign_extended(pmc, width as nat)) % 0x1_0000_0000_0000_0000,
{
    let extended = sign_extend(pmc, width);
    let sum = offset.wrapping_add(extended);
    let count = sum as u64;
    assert((sum as u64) as int == (if sum >= 0 { sum as int } else { sum + 0x1_0000_0000_0000_0000 })) by (bit_vector);
    let ghost total = offset + extended;
    assert(count as int == total % 0x1_0000_0000_0000_0000) by {
        if total >= 0 {
            vstd::arithmetic::div_mod::lemma_fundamental_div_mod_converse(total, 0x1_0000_0000_0000_0000, 0, total);
        } else {
            vstd::arithmetic::div_mod::lemma_fundamental_div_mod_converse(total, 0x1_0000_0000_0000_0000, -1, total + 0x1_0000_0000_0000_0000);
        }
    }
    count
}

/// A snapshot of the metadata page is consistent when the sequence lock was even and did not
/// change while the fields were read.
pub fn snapshot_complete(before: u32, after: u32) -> (r: bool)
    ensures
        r == (before == after && before % 2 == 0),
{
    assert(((before & 1) == 0) == (before % 2 == 0)) by (bit_vector);
    before == after && before & 1 == 0
}

/// The first count among the first `n` snapshots that produced one.
pub open spec fn first_count(counts: Seq<Option<u64>>, n: int) -> Option<u64>
    decreases n,
{
    if n <= 0 {
        None
    } else {
        match first_count(counts, n - 1) {
            Some(c) => Some(c),
            None => counts[n - 1],
        }
    }
}

/// A read of the event count: the first count among at most [`READ_ATTEMPTS`] consistent
/// snapshots, or `None` when the event was never scheduled on a counter.
pub fn perf_read(counts: &[Option<u64>]) -> (r: Option<u64>)
    ensures
        r == first_count(counts@, if counts.len() < READ_ATTEMPTS { counts.len() as int } else { READ_ATTEMPTS as int }),
{
    let limit = if counts.len() < READ_ATTEMPTS { counts.len() } else { READ_ATTEMPTS };
    let mut i: usize = 0;
    while i < limit
        invariant
            i <= limit <= counts.len(),
            limit == (if counts.len() < READ_ATTEMPTS { counts.len() } else { READ_ATTEMPTS }),
            first_count(counts@, i as int) is None,
        decreases limit - i,
    {
        if let Some(count) = counts[i] {
            assert(first_count(counts@, i as int + 1) == Some(count));
            assert forall|k: int| i < k <= limit implies #[trigger] first_count(counts@, k) == Some(count) by {
                lemma_first_count_settled(counts@, i as int + 1, k);
            }
            return Some(count);
        }
        i = i + 1;
    }
    None
}

proof fn lemma_first_count_settled(counts: Seq<Option<u64>>, m: int, k: int)
    requires
        1 <= m <= k,
    ensures
        first_count(counts, m) is Some ==> first_count(counts, k) == first_count(counts, m),
    decreases k - m,
{
    if k > m {
        lemma_first_count_settled(counts, m, k - 1);
    }
}

/// A reading that the caller knows exists, as the checked perf readers require.
pub fn perf_rdpmc_cpu_cycles_checked(reading: Option<u64>) -> (count: u64)
    requires
        reading is Some,
    ensures
        reading == Some(count),
{
    match reading {
        Some(count) => count,
        None => 0,
    }
}

/// The CPUID vendor string `GenuineIntel`.
pub open spec fn genuine_intel() -> Seq<u8> {
    seq![0x47u8, 0x65, 0x6E, 0x75, 0x69, 0x6E, 0x65, 0x49, 0x6E, 0x74, 0x65, 0x6C]
}

/// Whether the CPUID leaf 0 vendor registers (`ebx`, `edx`, `ecx`, in that order) spell
/// `GenuineIntel`.
pub fn cpu_vendor_is_intel(ebx: u32, edx: u32, ecx: u32) -> (r: bool)
    ensures
        r == (le_bytes32(ebx as int) + le_bytes32(edx as int) + le_bytes32(ecx as int) == genuine_intel()),
{
    let mut vendor = Vec::new();
    push_le_bytes32(&mut vendor, ebx);
    push_le_bytes32(&mut vendor, edx);
    push_le_bytes32(&mut vendor, ecx);
    let expected = bytes_of(&[0x47, 0x65, 0x6E, 0x75, 0x69, 0x6E, 0x65, 0x49, 0x6E, 0x74, 0x65, 0x6C]);
    assert(expected@ =~= genuine_intel());
    assert(vendor@ =~= le_bytes32(ebx as int) + le_bytes32(edx as int) + le_bytes32(ecx as int));
    bytes_equal(vendor.as_slice(), expected.as_slice())
}

/// The value of a sysfs `rdpmc` policy file with contents `content`: the number it holds once
/// surrounding white space is removed, or `None` when that is not a `u64`.
pub fn policy_value(content: &str) -> (r: Option<u64>)
    ensures
        r == parsed_u64(trimmed(content@)),
{
    let chars = chars_of(content);
    let (start, end) = trim_bounds(&chars, 0, chars.len());
    assert(chars@.subrange(0, chars.len() as int) =~= content@);
    parse_u64(&chars, start, end)
}

/// Whether any of the sysfs `rdpmc` policy values allows direct `rdpmc` for all processes (2 or
/// more). Unreadable or unparsable files count as `None`.
pub fn direct_rdpmc_enabled_for_all_processes(values: &[Option<u64>]) -> (r: bool)
    ensures
        r == exists|i: int| 0 <= i < values.len() && (#[trigger] values@[i] matches Some(v) && v >= 2),
{
    let mut i: usize = 0;
    while i < values.len()
        invariant
            i <= values.len(),
            forall|k: int| 0 <= k < i ==> !(#[trigger] values@[k] matches Some(v) && v >= 2),
        decreases values.len() - i,
    {
        match values[i] {
            Some(v) => {
                if v >= 2 {
                    assert(values@[i as int] matches Some(v) && v >= 2);
                    return true;
                }
            },
            None => {},
        }
        i = i + 1;
    }
    false
}

/// Whether direct fixed-counter `rdpmc` is usable: an Intel processor, the sysfs policy allows it
/// for all processes, and the counter advanced between two reads (`before`, `after`).
pub fn direct_rdpmc_fixed_core_cycles_available(intel: bool, enabled_for_all: bool, before: u64, after: u64) -> (r: bool)
    ensures
        r == (intel && enabled_for_all && after > before),
{
    intel && enabled_for_all && after > before
}

} // verus!
