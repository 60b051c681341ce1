//! Machine-code bytes of the patchable call-site stubs, per architecture.

use vstd::prelude::*;

use crate::indices;
use crate::patch::{branch_displacement, branch_i32, branch_units, branch_words, PatchOutcome};
use crate::sources::{cycle_source, hardware_source, target_arch_of, CounterSource};
use crate::target::{Target, TargetOs};

verus! {

/// Instruction-set architectures with a patchable stub.
#[derive(Clone, Copy, Debug, PartialEq, Eq, Structural)]
pub enum Arch {
    X86_64,
    X86,
    Aarch64,
    Riscv64,
    Powerpc64,
    S390x,
    Loongarch64,
}

/// The target a stub is encoded for.
#[derive(Clone, Copy, Debug, PartialEq, Eq, Structural)]
pub struct Platform {
    /// Instruction set.
    pub arch: Arch,
    /// The operating system is Linux (which offers the PMU-backed cycle counters).
    pub linux: bool,
    /// Words are stored most significant byte first.
    pub big_endian: bool,
}

/// The two clock classes, each with its own selection and call sites.
#[derive(Clone, Copy, Debug, PartialEq, Eq, Structural)]
pub enum ClockClass {
    Instant,
    Cycles,
}

/// Addresses recorded for one call site: the stub itself and the trampolines it may branch to.
#[derive(Clone, Copy, Debug, PartialEq, Eq, Structural)]
pub struct CallsiteRecord {
    /// Address of the patchable stub.
    pub patch_address: usize,
    /// Trampoline that runs the selection on first use.
    pub cold_address: usize,
    /// Trampoline that reads the operating-system fallback clock.
    pub fallback_address: usize,
    /// Trampoline that reads the hardware counter through a call.
    pub hardware_address: usize,
}

/// Length in bytes of a stub on `arch`.
pub open spec fn stub_len(arch: Arch) -> nat {
    match arch {
        Arch::X86_64 => 9,
        Arch::X86 | Arch::S390x => 8,
        _ => 4,
    }
}

/// The stub length on `arch`.
pub fn stub_len_of(arch: Arch) -> (n: usize)
    ensures
        n == stub_len(arch),
{
    match arch {
        Arch::X86_64 => 9,
        Arch::X86 | Arch::S390x => 8,
        _ => 4,
    }
}

/// A signed 32-bit value as its two's-complement bit pattern.
pub open spec fn twos32(v: int) -> int {
    if v >= 0 { v } else { v + 0x1_0000_0000 }
}

/// The four bytes of the 32-bit word `u`, least significant first.
pub open spec fn le_bytes32(u: int) -> Seq<u8> {
    seq![(u % 256) as u8, (u / 0x100 % 256) as u8, (u / 0x1_0000 % 256) as u8, (u / 0x100_0000 % 256) as u8]
}

/// The four bytes of the 32-bit word `u`, most significant first.
pub open spec fn be_bytes32(u: int) -> Seq<u8> {
    seq![(u / 0x100_0000 % 256) as u8, (u / 0x1_0000 % 256) as u8, (u / 0x100 % 256) as u8, (u % 256) as u8]
}

/// The bytes of the instruction word `u` in the platform's byte order.
pub open spec fn word_seq(u: int, big_endian: bool) -> Seq<u8> {
    if big_endian { be_bytes32(u) } else { le_bytes32(u) }
}

/// The word of an aarch64 `B` whose 26-bit word offset is `offset`.
pub open spec fn aarch64_b_word(offset: int) -> int {
    0x1400_0000 + twos32(offset) % 0x400_0000
}

/// The word of an aarch64 `BL` whose 26-bit word offset is `offset`.
pub open spec fn aarch64_bl_word(offset: int) -> int {
    0x9400_0000 + twos32(offset) % 0x400_0000
}

/// The word of a riscv64 `JAL x0` whose byte offset is `2 * halfwords`.
pub open spec fn riscv_jal_word(halfwords: int) -> int {
    let imm = twos32(2 * halfwords);
    0x6F + (imm / 0x10_0000 % 2) * 0x8000_0000 + (imm / 2 % 0x400) * 0x20_0000 + (imm / 0x800 % 2) * 0x10_0000
        + (imm / 0x1000 % 0x100) * 0x1000
}

/// The word of a powerpc64 `b` whose byte offset is `4 * words`.
pub open spec fn powerpc_b_word(words: int) -> int {
    0x4800_0000 + twos32(4 * words) % 0x400_0000
}

/// The word of a loongarch64 `b` whose word offset is `offset`.
pub open spec fn loongarch_b_word(offset: int) -> int {
    let imm = twos32(offset);
    0x5000_0000 + (imm % 0x1_0000) * 0x400 + (imm / 0x1_0000 % 0x400)
}

/// The stub bytes that branch from `from` to `to` on `platform`, when the target is in range.
pub open spec fn branch_stub_spec(platform: Platform, from: int, to: int) -> Option<Seq<u8>> {
    match platform.arch {
        Arch::X86_64 | Arch::X86 => match branch_displacement(from, to, 5) {
            Some(rel) => Some(
                seq![0xE9u8] + le_bytes32(twos32(rel)) + Seq::new((stub_len(platform.arch) - 5) as nat, |i: int| 0x90u8),
            ),
            None => None,
        },
        Arch::Aarch64 => match branch_units(from, to, 2, 26) {
            Some(o) => Some(word_seq(aarch64_b_word(o), platform.big_endian)),
            None => None,
        },
        Arch::Riscv64 => match branch_units(from, to, 1, 21) {
            Some(o) => Some(word_seq(riscv_jal_word(o), platform.big_endian)),
            None => None,
        },
        Arch::Powerpc64 => match branch_units(from, to, 2, 24) {
            Some(o) => Some(word_seq(powerpc_b_word(o), platform.big_endian)),
            None => None,
        },
        Arch::S390x => match branch_units(from, to, 1, 32) {
            Some(o) => Some(seq![0xC0u8, 0xF4u8] + be_bytes32(twos32(o)) + seq![0x07u8, 0x00u8]),
            None => None,
        },
        Arch::Loongarch64 => match branch_units(from, to, 2, 26) {
            Some(o) => Some(word_seq(loongarch_b_word(o), platform.big_endian)),
            None => None,
        },
    }
}

/// The byte view of optional stub bytes.
pub open spec fn bytes_view(o: Option<Vec<u8>>) -> Option<Seq<u8>> {
    match o {
        Some(v) => Some(v@),
        None => None,
    }
}

/// The two's-complement bit pattern of `v`.
pub fn twos_complement(v: i32) -> (u: u32)
    ensures
        u == twos32(v as int),
{
    if v >= 0 {
        v as u32
    } else {
        ((v as i64) + 0x1_0000_0000) as u32
    }
}

/// Pushes the four bytes of `word`, least significant first.
pub fn push_le_bytes32(out: &mut Vec<u8>, word: u32)
    ensures
        final(out)@ == old(out)@ + le_bytes32(word as int),
{
    out.push((word % 256) as u8);
    out.push((word / 0x100 % 256) as u8);
    out.push((word / 0x1_0000 % 256) as u8);
    out.push((word / 0x100_0000 % 256) as u8);
    assert(final(out)@ =~= old(out)@ + le_bytes32(word as int));
}

/// Pushes the four bytes of `word`, most significant first.
pub fn push_be_bytes32(out: &mut Vec<u8>, word: u32)
    ensures
        final(out)@ == old(out)@ + be_bytes32(word as int),
{
    out.push((word / 0x100_0000 % 256) as u8);
    out.push((word / 0x1_0000 % 256) as u8);
    out.push((word / 0x100 % 256) as u8);
    out.push((word % 256) as u8);
    assert(final(out)@ =~= old(out)@ + be_bytes32(word as int));
}

/// The bytes of the instruction word `word` in the platform's byte order.
pub fn word_bytes(word: u32, big_endian: bool) -> (b: Vec<u8>)
    ensures
        b@ == word_seq(word as int, big_endian),
{
    let mut b = Vec::new();
    if big_endian {
        push_be_bytes32(&mut b, word);
    } else {
        push_le_bytes32(&mut b, word);
    }
    assert(b@ =~= word_seq(word as int, big_endian));
    b
}

/// An x86 `jmp rel32` from `from` to `to`, padded with `nop` to `len` bytes.
pub(crate) fn x86_jmp_stub(from: usize, to: usize, len: usize) -> (r: Option<Vec<u8>>)
    requires
        5 <= len,
    ensures
        bytes_view(r) == (match branch_displacement(from as int, to as int, 5) {
            Some(rel) => Some(seq![0xE9u8] + le_bytes32(twos32(rel)) + Seq::new((len - 5) as nat, |i: int| 0x90u8)),
            None => None::<Seq<u8>>,
        }),
{
    let rel = match branch_i32(from, to, 5) {
        Some(rel) => rel,
        None => return None,
    };
    let mut bytes = Vec::new();
    bytes.push(0xE9u8);
    push_le_bytes32(&mut bytes, twos_complement(rel));
    let mut i: usize = 5;
    while i < len
        invariant
            5 <= i <= len,
            bytes@ == seq![0xE9u8] + le_bytes32(twos32(rel as int)) + Seq::new((i - 5) as nat, |k: int| 0x90u8),
        decreases len - i,
    {
        bytes.push(0x90u8);
        i = i + 1;
        assert(bytes@ =~= seq![0xE9u8] + le_bytes32(twos32(rel as int)) + Seq::new((i - 5) as nat, |k: int| 0x90u8));
    }
    Some(bytes)
}

/// The aarch64 `B` word for a word offset in the signed 26-bit range.
pub(crate) fn aarch64_b(offset: i32) -> (w: u32)
    requires
        -0x200_0000 <= offset < 0x200_0000,
    ensures
        w == aarch64_b_word(offset as int),
{
    let imm = twos_complement(offset);
    let w = 0x1400_0000u32 | (imm & 0x03ff_ffff);
    assert(w == 0x1400_0000u32 + imm % 0x400_0000) by (bit_vector)
        requires
            w == 0x1400_0000u32 | (imm & 0x03ff_ffff),
    ;
    w
}

/// The riscv64 `JAL x0` word for an offset of `halfwords` half-words in the signed 20-bit range.
fn riscv_jal(halfwords: i32) -> (w: u32)
    requires
        -0x10_0000 <= halfwords < 0x10_0000,
    ensures
        w == riscv_jal_word(halfwords as int),
{
    let imm = twos_complement(halfwords * 2);
    let w = 0x0000_006Fu32 | ((imm & 0x0010_0000) << 11) | ((imm & 0x0000_07FE) << 20) | ((imm & 0x0000_0800) << 9)
        | (imm & 0x000F_F000);
    assert(w == 0x6Fu32 + (imm / 0x10_0000 % 2) * 0x8000_0000 + (imm / 2 % 0x400) * 0x20_0000 + (imm / 0x800 % 2)
        * 0x10_0000 + (imm / 0x1000 % 0x100) * 0x1000) by (bit_vector)
        requires
            w == 0x0000_006Fu32 | ((imm & 0x0010_0000) << 11) | ((imm & 0x0000_07FE) << 20) | ((imm & 0x0000_0800)
                << 9) | (imm & 0x000F_F000),
    ;
    w
}

/// The powerpc64 `b` word for an offset of `words` words in the signed 24-bit range.
fn powerpc_b(words: i32) -> (w: u32)
    requires
        -0x80_0000 <= words < 0x80_0000,
    ensures
        w == powerpc_b_word(words as int),
{
    let imm = twos_complement(words * 4);
    assert(imm % 4 == 0);
    let w = 0x4800_0000u32 | (imm & 0x03ff_fffc);
    assert(w == 0x4800_0000u32 + imm % 0x400_0000) by (bit_vector)
        requires
            w == 0x4800_0000u32 | (imm & 0x03ff_fffc),
            imm % 4 == 0,
    ;
    w
}

/// The loongarch64 `b` word for a word offset in the signed 26-bit range.
fn loongarch_b(offset: i32) -> (w: u32)
    requires
        -0x200_0000 <= offset < 0x200_0000,
    ensures
        w == loongarch_b_word(offset as int),
{
    let imm = twos_complement(offset);
    let w = 0x5000_0000u32 | ((imm & 0xffff) << 10) | ((imm >> 16) & 0x03ff);
    assert(w == 0x5000_0000u32 + (imm % 0x1_0000) * 0x400 + (imm / 0x1_0000 % 0x400)) by (bit_vector)
        requires
            w == 0x5000_0000u32 | ((imm & 0xffff) << 10) | ((imm >> 16) & 0x03ff),
    ;
    w
}

/// The stub bytes on `platform` of a branch from `from` to `to`, or `None` when the target is
/// out of the branch's reach.
pub fn branch_stub_bytes(platform: Platform, from: usize, to: usize) -> (r: Option<Vec<u8>>)
    ensures
        bytes_view(r) == branch_stub_spec(platform, from as int, to as int),
{
    match platform.arch {
        Arch::X86_64 | Arch::X86 => x86_jmp_stub(from, to, stub_len_of(platform.arch)),
        Arch::Aarch64 => match branch_words(from, to, 2, 26) {
            Some(o) => {
                proof {
                    vstd::arithmetic::power2::lemma2_to64();
                }
                Some(word_bytes(aarch64_b(o), platform.big_endian))
            },
            None => None,
        },
        Arch::Riscv64 => match branch_words(from, to, 1, 21) {
            Some(o) => {
                proof {
                    vstd::arithmetic::power2::lemma2_to64();
                }
                Some(word_bytes(riscv_jal(o), platform.big_endian))
            },
            None => None,
        },
        Arch::Powerpc64 => match branch_words(from, to, 2, 24) {
            Some(o) => {
                proof {
                    vstd::arithmetic::power2::lemma2_to64();
                }
                Some(word_bytes(powerpc_b(o), platform.big_endian))
            },
            None => None,
        },
        Arch::S390x => match branch_words(from, to, 1, 32) {
            Some(o) => {
                let mut bytes = Vec::new();
                bytes.push(0xC0u8);
                bytes.push(0xF4u8);
                push_be_bytes32(&mut bytes, twos_complement(o));
                bytes.push(0x07u8);
                bytes.push(0x00u8);
                assert(bytes@ =~= seq![0xC0u8, 0xF4u8] + be_bytes32(twos32(o as int)) + seq![0x07u8, 0x00u8]);
                Some(bytes)
            },
            None => None,
        },
        Arch::Loongarch64 => match branch_words(from, to, 2, 26) {
            Some(o) => {
                proof {
                    vstd::arithmetic::power2::lemma2_to64();
                }
                Some(word_bytes(loongarch_b(o), platform.big_endian))
            },
            None => None,
        },
    }
}

/// `rdtsc; shl rdx, 32; or rax, rdx`: the x86_64 stub that reads the time-stamp counter inline.
pub open spec fn x86_64_rdtsc_seq() -> Seq<u8> {
    seq![0x0Fu8, 0x31, 0x48, 0xC1, 0xE2, 0x20, 0x48, 0x09, 0xD0]
}

/// `rdtsc` padded with `nop`: the x86 stub that reads the time-stamp counter inline.
pub open spec fn x86_rdtsc_seq() -> Seq<u8> {
    seq![0x0Fu8, 0x31, 0x90, 0x90, 0x90, 0x90, 0x90, 0x90]
}

/// `mrs x0, cntvct_el0`.
pub open spec fn aarch64_cntvct_seq() -> Seq<u8> {
    seq![0x40u8, 0xE0, 0x3B, 0xD5]
}

/// `mrs x0, pmccntr_el0`.
pub open spec fn aarch64_pmccntr_seq() -> Seq<u8> {
    seq![0x00u8, 0x9D, 0x3B, 0xD5]
}

/// `rdtime a0`.
pub open spec fn riscv_rdtime_seq() -> Seq<u8> {
    seq![0x73u8, 0x25, 0x10, 0xC0]
}

/// `rdcycle a0`.
pub open spec fn riscv_rdcycle_seq() -> Seq<u8> {
    seq![0x73u8, 0x25, 0x00, 0xC0]
}

/// `mftb r3`.
pub open spec fn powerpc_mftb_seq() -> Seq<u8> {
    seq![0x7Cu8, 0x6C, 0x42, 0xE6]
}

/// `rdtime.d $a0, $zero`.
pub open spec fn loongarch_rdtime_seq() -> Seq<u8> {
    seq![0x04u8, 0x68, 0x00, 0x00]
}

/// The stub bytes of an `Instant` call site once counter `selected` is chosen: the hardware
/// counter inline (a branch to the hardware trampoline on s390x), anything else a branch to
/// the fallback trampoline.
pub open spec fn instant_stub_spec(platform: Platform, record: CallsiteRecord, selected: u8) -> Option<Seq<u8>> {
    let to_fallback = branch_stub_spec(platform, record.patch_address as int, record.fallback_address as int);
    if selected != 0 {
        to_fallback
    } else {
        match platform.arch {
            Arch::X86_64 => Some(x86_64_rdtsc_seq()),
            Arch::X86 => Some(x86_rdtsc_seq()),
            Arch::Aarch64 => Some(aarch64_cntvct_seq()),
            Arch::Riscv64 => Some(riscv_rdtime_seq()),
            Arch::Powerpc64 => Some(powerpc_mftb_seq()),
            Arch::S390x => branch_stub_spec(platform, record.patch_address as int, record.hardware_address as int),
            Arch::Loongarch64 => Some(loongarch_rdtime_seq()),
        }
    }
}

/// The stub bytes of a `Cycles` call site once counter `selected` is chosen.
pub open spec fn cycle_stub_spec(platform: Platform, record: CallsiteRecord, selected: u8) -> Option<Seq<u8>> {
    let to_fallback = branch_stub_spec(platform, record.patch_address as int, record.fallback_address as int);
    match platform.arch {
        Arch::X86 => if selected == indices::RDTSC {
            Some(x86_rdtsc_seq())
        } else if platform.linux && (selected == indices::DIRECT_RDPMC || selected == indices::PERF_RDPMC) {
            branch_stub_spec(platform, record.patch_address as int, record.hardware_address as int)
        } else {
            to_fallback
        },
        Arch::Aarch64 => if !platform.linux {
            instant_stub_spec(platform, record, selected)
        } else if selected == indices::PMCCNTR {
            Some(aarch64_pmccntr_seq())
        } else if selected == indices::CNTVCT {
            Some(aarch64_cntvct_seq())
        } else {
            to_fallback
        },
        Arch::Riscv64 => if selected == indices::RDCYCLE {
            Some(riscv_rdcycle_seq())
        } else if selected == indices::RDTIME {
            Some(riscv_rdtime_seq())
        } else {
            to_fallback
        },
        _ => instant_stub_spec(platform, record, selected),
    }
}

/// The stub bytes for `class` once counter `selected` is chosen.
pub open spec fn selected_stub_spec(platform: Platform, class: ClockClass, record: CallsiteRecord, selected: u8) -> Option<Seq<u8>> {
    match class {
        ClockClass::Instant => instant_stub_spec(platform, record, selected),
        ClockClass::Cycles => cycle_stub_spec(platform, record, selected),
    }
}

/// The bytes of `s` as a vector.
pub(crate) fn bytes_of(s: &[u8]) -> (v: Vec<u8>)
    ensures
        v@ == s@,
{
    let mut v = Vec::new();
    let mut i: usize = 0;
    while i < s.len()
        invariant
            i <= s.len(),
            v@ == s@.subrange(0, i as int),
        decreases s.len() - i,
    {
        v.push(s[i]);
        i = i + 1;
        assert(v@ =~= s@.subrange(0, i as int));
    }
    assert(v@ =~= s@);
    v
}

/// The `Instant` stub bytes on `platform` once counter `selected` is chosen.
pub fn instant_stub_bytes(platform: Platform, record: &CallsiteRecord, selected: u8) -> (r: Option<Vec<u8>>)
    ensures
        bytes_view(r) == instant_stub_spec(platform, *record, selected),
{
    if selected != 0 {
        return branch_stub_bytes(platform, record.patch_address, record.fallback_address);
    }
    match platform.arch {
        Arch::X86_64 => {
            let b = bytes_of(&[0x0F, 0x31, 0x48, 0xC1, 0xE2, 0x20, 0x48, 0x09, 0xD0]);
            assert(b@ =~= x86_64_rdtsc_seq());
            Some(b)
        },
        Arch::X86 => {
            let b = bytes_of(&[0x0F, 0x31, 0x90, 0x90, 0x90, 0x90, 0x90, 0x90]);
            assert(b@ =~= x86_rdtsc_seq());
            Some(b)
        },
        Arch::Aarch64 => {
            let b = bytes_of(&[0x40, 0xE0, 0x3B, 0xD5]);
            assert(b@ =~= aarch64_cntvct_seq());
            Some(b)
        },
        Arch::Riscv64 => {
            let b = bytes_of(&[0x73, 0x25, 0x10, 0xC0]);
            assert(b@ =~= riscv_rdtime_seq());
            Some(b)
        },
        Arch::Powerpc64 => {
            let b = bytes_of(&[0x7C, 0x6C, 0x42, 0xE6]);
            assert(b@ =~= powerpc_mftb_seq());
            Some(b)
        },
        Arch::S390x => branch_stub_bytes(platform, record.patch_address, record.hardware_address),
        Arch::Loongarch64 => {
            let b = bytes_of(&[0x04, 0x68, 0x00, 0x00]);
            assert(b@ =~= loongarch_rdtime_seq());
            Some(b)
        },
    }
}

/// The `Cycles` stub bytes on `platform` once counter `selected` is chosen.
pub fn cycle_stub_bytes(platform: Platform, record: &CallsiteRecord, selected: u8) -> (r: Option<Vec<u8>>)
    ensures
        bytes_view(r) == cycle_stub_spec(platform, *record, selected),
{
    match platform.arch {
        Arch::X86 => {
            if selected == indices::RDTSC {
                let b = bytes_of(&[0x0F, 0x31, 0x90, 0x90, 0x90, 0x90, 0x90, 0x90]);
                assert(b@ =~= x86_rdtsc_seq());
                Some(b)
            } else if platform.linux && (selected == indices::DIRECT_RDPMC || selected == indices::PERF_RDPMC) {
                branch_stub_bytes(platform, record.patch_address, record.hardware_address)
            } else {
                branch_stub_bytes(platform, record.patch_address, record.fallback_address)
            }
        },
        Arch::Aarch64 => {
            if !platform.linux {
                instant_stub_bytes(platform, record, selected)
            } else if selected == indices::PMCCNTR {
                let b = bytes_of(&[0x00, 0x9D, 0x3B, 0xD5]);
                assert(b@ =~= aarch64_pmccntr_seq());
                Some(b)
            } else if selected == indices::CNTVCT {
                let b = bytes_of(&[0x40, 0xE0, 0x3B, 0xD5]);
                assert(b@ =~= aarch64_cntvct_seq());
                Some(b)
            } else {
                branch_stub_bytes(platform, record.patch_address, record.fallback_address)
            }
        },
        Arch::Riscv64 => {
            if selected == indices::RDCYCLE {
                let b = bytes_of(&[0x73, 0x25, 0x00, 0xC0]);
                assert(b@ =~= riscv_rdcycle_seq());
                Some(b)
            } else if selected == indices::RDTIME {
                let b = bytes_of(&[0x73, 0x25, 0x10, 0xC0]);
                assert(b@ =~= riscv_rdtime_seq());
                Some(b)
            } else {
                branch_stub_bytes(platform, record.patch_address, record.fallback_address)
            }
        },
        _ => instant_stub_bytes(platform, record, selected),
    }
}

/// The stub bytes for `class` on `platform` once counter `selected` is chosen.
pub fn selected_stub_bytes(platform: Platform, class: ClockClass, record: &CallsiteRecord, selected: u8) -> (r: Option<Vec<u8>>)
    ensures
        bytes_view(r) == selected_stub_spec(platform, class, *record, selected),
{
    match class {
        ClockClass::Instant => instant_stub_bytes(platform, record, selected),
        ClockClass::Cycles => cycle_stub_bytes(platform, record, selected),
    }
}

/// What a patching pass does to one stub.
#[derive(Debug)]
pub enum StubAction {
    /// Leave the stub alone and count a failure.
    Fail,
    /// The stub already holds the selected bytes.
    Keep,
    /// Write these bytes over the stub.
    Write(Vec<u8>),
}

/// `action` is the right step for a stub holding `current`, given the selected bytes and the
/// bytes of the unpatched stub (a branch to the cold selection path): keep a stub that already
/// holds the selection, overwrite one still in its unpatched state, and fail otherwise or when
/// either encoding is unavailable.
pub open spec fn planned(action: StubAction, current: Seq<u8>, selected: Option<Seq<u8>>, unselected: Option<Seq<u8>>) -> bool {
    match action {
        StubAction::Keep => selected == Some(current) && unselected is Some,
        StubAction::Write(b) => selected == Some(b@) && unselected == Some(current) && current != b@,
        StubAction::Fail => !(selected is Some && unselected is Some && (selected == Some(current) || unselected == Some(current))),
    }
}

/// Whether two byte strings are equal.
pub fn bytes_equal(a: &[u8], b: &[u8]) -> (r: bool)
    ensures
        r == (a@ == b@),
{
    if a.len() != b.len() {
        return false;
    }
    let mut i: usize = 0;
    while i < a.len()
        invariant
            a.len() == b.len(),
            i <= a.len(),
            forall|k: int| 0 <= k < i ==> a@[k] == b@[k],
        decreases a.len() - i,
    {
        if a[i] != b[i] {
            return false;
        }
        i = i + 1;
    }
    assert(a@ =~= b@);
    true
}

/// Decides what to do with the stub of `record`, which currently holds `current`, once
/// counter `selected` is chosen for `class`.
pub fn plan_callsite(platform: Platform, class: ClockClass, record: &CallsiteRecord, selected: u8, current: &[u8]) -> (a: StubAction)
    ensures
        planned(
            a,
            current@,
            selected_stub_spec(platform, class, *record, selected),
            branch_stub_spec(platform, record.patch_address as int, record.cold_address as int),
        ),
{
    let selected_bytes = match selected_stub_bytes(platform, class, record, selected) {
        Some(b) => b,
        None => return StubAction::Fail,
    };
    let unselected_bytes = match branch_stub_bytes(platform, record.patch_address, record.cold_address) {
        Some(b) => b,
        None => return StubAction::Fail,
    };
    if bytes_equal(current, selected_bytes.as_slice()) {
        return StubAction::Keep;
    }
    if !bytes_equal(current, unselected_bytes.as_slice()) {
        return StubAction::Fail;
    }
    StubAction::Write(selected_bytes)
}

/// The outcome of one stub once `action` was carried out; `written` tells whether writing the
/// new bytes succeeded.
pub fn finish_callsite(action: &StubAction, written: bool) -> (o: PatchOutcome)
    ensures
        o == (match action {
            StubAction::Keep => PatchOutcome::AlreadyPatched,
            StubAction::Fail => PatchOutcome::Failed,
            StubAction::Write(_) => if written { PatchOutcome::Patched } else { PatchOutcome::Failed },
        }),
{
    match action {
        StubAction::Keep => PatchOutcome::AlreadyPatched,
        StubAction::Fail => PatchOutcome::Failed,
        StubAction::Write(_) => if written { PatchOutcome::Patched } else { PatchOutcome::Failed },
    }
}

/// Patching is idempotent: once the planned bytes are written, planning again for the same
/// call site keeps the stub as it is.
pub proof fn lemma_patched_stub_is_kept(bytes: Vec<u8>, current: Seq<u8>, selected: Option<Seq<u8>>, unselected: Option<Seq<u8>>)
    requires
        planned(StubAction::Write(bytes), current, selected, unselected),
    ensures
        planned(StubAction::Keep, bytes@, selected, unselected),
{
}

/// The 32-bit word whose bytes, least significant first, are `b[0..4]`.
pub open spec fn le_value32(b: Seq<u8>) -> int {
    b[0] as int + b[1] as int * 0x100 + b[2] as int * 0x1_0000 + b[3] as int * 0x100_0000
}

/// The 32-bit word whose bytes, most significant first, are `b[0..4]`.
pub open spec fn be_value32(b: Seq<u8>) -> int {
    b[3] as int + b[2] as int * 0x100 + b[1] as int * 0x1_0000 + b[0] as int * 0x100_0000
}

/// The instruction word stored in `b` in the platform's byte order.
pub open spec fn word_value(b: Seq<u8>, big_endian: bool) -> int {
    if big_endian { be_value32(b) } else { le_value32(b) }
}

/// The 32-bit pattern `u` read as a signed number.
pub open spec fn signed32(u: int) -> int {
    if u >= 0x8000_0000 { u - 0x1_0000_0000 } else { u }
}

/// The 26-bit field `u` read as a signed number.
pub open spec fn signed26(u: int) -> int {
    if u >= 0x200_0000 { u - 0x400_0000 } else { u }
}

/// The 21-bit field `u` read as a signed number.
pub open spec fn signed21(u: int) -> int {
    if u >= 0x10_0000 { u - 0x20_0000 } else { u }
}

/// The byte offset that a riscv64 `JAL` word `w` encodes, before sign extension: the 21-bit
/// immediate gathered from its scattered fields.
pub open spec fn riscv_jal_offset(w: int) -> int {
    (w / 0x8000_0000 % 2) * 0x10_0000 + (w / 0x20_0000 % 0x400) * 2 + (w / 0x10_0000 % 2) * 0x800 + (w / 0x1000
        % 0x100) * 0x1000
}

/// Where the processor goes when it runs the stub bytes `b` at `from`, when they begin with a
/// relative branch: on x86 / x86_64 a `jmp rel32` (`E9`, next instruction plus the signed
/// 32-bit displacement); on aarch64 a `B` (next address is `from` plus four times the signed
/// 26-bit field); on riscv64 a `JAL x0` (`from` plus the signed 21-bit scattered immediate); on
/// powerpc64 a `b` (`from` plus the signed 26-bit byte field); on s390x a `BRCL 15`
/// (`C0 F4`, `from` plus twice the signed 32-bit field); on loongarch64 a `B` (`from` plus four
/// times the signed 26-bit offset split over two fields). `None` when the bytes are no such
/// branch.
pub open spec fn branch_destination(platform: Platform, from: int, b: Seq<u8>) -> Option<int> {
    let w = word_value(b, platform.big_endian);
    match platform.arch {
        Arch::X86_64 | Arch::X86 => if b.len() >= 5 && b[0] == 0xE9 {
            Some(from + 5 + signed32(le_value32(b.subrange(1, 5))))
        } else {
            None
        },
        Arch::Aarch64 => if b.len() == 4 && w / 0x400_0000 == 5 {
            Some(from + 4 * signed26(w % 0x400_0000))
        } else {
            None
        },
        Arch::Riscv64 => if b.len() == 4 && w % 0x1000 == 0x6F {
            Some(from + signed21(riscv_jal_offset(w)))
        } else {
            None
        },
        Arch::Powerpc64 => if b.len() == 4 && w / 0x400_0000 == 18 && w % 4 == 0 {
            Some(from + signed26(w % 0x400_0000))
        } else {
            None
        },
        Arch::S390x => if b.len() >= 6 && b[0] == 0xC0 && b[1] == 0xF4 {
            Some(from + 2 * signed32(be_value32(b.subrange(2, 6))))
        } else {
            None
        },
        Arch::Loongarch64 => if b.len() == 4 && w / 0x400_0000 == 20 {
            Some(from + 4 * signed26(w / 0x400 % 0x1_0000 + (w % 0x400) * 0x1_0000))
        } else {
            None
        },
    }
}

/// Reading back the four bytes of a 32-bit word, in either byte order, gives the word.
pub proof fn lemma_word_bytes_roundtrip(u: u32)
    ensures
        le_value32(le_bytes32(u as int)) == u,
        be_value32(be_bytes32(u as int)) == u,
{
    assert((u % 256) + (u / 0x100 % 256) * 0x100 + (u / 0x1_0000 % 256) * 0x1_0000 + (u / 0x100_0000 % 256)
        * 0x100_0000 == u) by (bit_vector);
}

proof fn lemma_riscv_jal_decodes(imm: u32)
    requires
        imm % 2 == 0,
    ensures
        riscv_jal_offset(riscv_jal_word_of_imm(imm as int)) == imm % 0x20_0000,
        riscv_jal_word_of_imm(imm as int) % 0x1000 == 0x6F,
        0 <= riscv_jal_word_of_imm(imm as int) < 0x1_0000_0000,
{
    let w = riscv_jal_word_of_imm(imm as int);
    assert(0x6Fu32 + (imm / 0x10_0000 % 2) * 0x8000_0000 + (imm / 2 % 0x400) * 0x20_0000 + (imm / 0x800 % 2)
        * 0x10_0000 + (imm / 0x1000 % 0x100) * 0x1000 < 0x1_0000_0000) by (bit_vector);
    assert({
        let w = 0x6Fu64 + (imm / 0x10_0000 % 2) as u64 * 0x8000_0000 + (imm / 2 % 0x400) as u64 * 0x20_0000 + (imm
            / 0x800 % 2) as u64 * 0x10_0000 + (imm / 0x1000 % 0x100) as u64 * 0x1000;
        &&& (w / 0x8000_0000 % 2) * 0x10_0000 + (w / 0x20_0000 % 0x400) * 2 + (w / 0x10_0000 % 2) * 0x800 + (w
            / 0x1000 % 0x100) * 0x1000 == (imm % 0x20_0000) as u64
        &&& w % 0x1000 == 0x6F
    }) by (bit_vector)
        requires
            imm % 2 == 0,
    ;
}

/// The riscv64 `JAL x0` word for the byte immediate `imm`.
pub open spec fn riscv_jal_word_of_imm(imm: int) -> int {
    0x6F + (imm / 0x10_0000 % 2) * 0x8000_0000 + (imm / 2 % 0x400) * 0x20_0000 + (imm / 0x800 % 2) * 0x10_0000 + (imm
        / 0x1000 % 0x100) * 0x1000
}

#[verifier::spinoff_prover]
#[verifier::rlimit(50)]
proof fn lemma_x86_branch_reaches_target(platform: Platform, from: int, to: int)
    requires
        platform.arch == Arch::X86_64 || platform.arch == Arch::X86,
        branch_stub_spec(platform, from, to) is Some,
    ensures
        branch_destination(platform, from, branch_stub_spec(platform, from, to)->0) == Some(to),
{
    let b = branch_stub_spec(platform, from, to)->0;
    vstd::arithmetic::power2::lemma2_to64();
    let rel = branch_displacement(from, to, 5)->0;
    let u = twos32(rel);
    lemma_word_bytes_roundtrip(u as u32);
    assert(b.subrange(1, 5) =~= le_bytes32(u));
}

#[verifier::spinoff_prover]
#[verifier::rlimit(50)]
proof fn lemma_aarch64_branch_reaches_target(platform: Platform, from: int, to: int)
    requires
        platform.arch == Arch::Aarch64,
        branch_stub_spec(platform, from, to) is Some,
    ensures
        branch_destination(platform, from, branch_stub_spec(platform, from, to)->0) == Some(to),
{
    let b = branch_stub_spec(platform, from, to)->0;
    vstd::arithmetic::power2::lemma2_to64();
    let o = branch_units(from, to, 2, 26)->0;
    let w = aarch64_b_word(o);
    lemma_word_bytes_roundtrip(w as u32);
    assert(word_value(b, platform.big_endian) == w);
    assert(w % 0x400_0000 == twos32(o) % 0x400_0000);
}

#[verifier::spinoff_prover]
#[verifier::rlimit(50)]
proof fn lemma_riscv_jal_offset(o: int)
    requires
        -0x8_0000 <= o < 0x8_0000,
    ensures
        0 <= riscv_jal_word(o) < 0x1_0000_0000,
        riscv_jal_word(o) % 0x1000 == 0x6F,
        signed21(riscv_jal_offset(riscv_jal_word(o))) == 2 * o,
{
    let imm = twos32(2 * o);
    assert(0 <= imm < 0x1_0000_0000 && imm % 2 == 0);
    lemma_riscv_jal_decodes(imm as u32);
    assert(riscv_jal_word(o) == riscv_jal_word_of_imm(imm));
    if 2 * o >= 0 {
        assert(imm % 0x20_0000 == 2 * o);
    } else {
        assert(imm % 0x20_0000 == 2 * o + 0x20_0000);
    }
}

#[verifier::spinoff_prover]
#[verifier::rlimit(50)]
proof fn lemma_riscv_branch_reaches_target(platform: Platform, from: int, to: int)
    requires
        platform.arch == Arch::Riscv64,
        branch_stub_spec(platform, from, to) is Some,
        -0x10_0000 <= to - from < 0x10_0000,
    ensures
        branch_destination(platform, from, branch_stub_spec(platform, from, to)->0) == Some(to),
{
    let b = branch_stub_spec(platform, from, to)->0;
    vstd::arithmetic::power2::lemma2_to64();
    let o = branch_units(from, to, 1, 21)->0;
    assert(2 * o == to - from);
    lemma_riscv_jal_offset(o);
    let w = riscv_jal_word(o);
    lemma_word_bytes_roundtrip(w as u32);
    assert(word_value(b, platform.big_endian) == w);
}

#[verifier::spinoff_prover]
#[verifier::rlimit(50)]
proof fn lemma_powerpc_branch_reaches_target(platform: Platform, from: int, to: int)
    requires
        platform.arch == Arch::Powerpc64,
        branch_stub_spec(platform, from, to) is Some,
    ensures
        branch_destination(platform, from, branch_stub_spec(platform, from, to)->0) == Some(to),
{
    let b = branch_stub_spec(platform, from, to)->0;
    vstd::arithmetic::power2::lemma2_to64();
    let o = branch_units(from, to, 2, 24)->0;
    let w = powerpc_b_word(o);
    lemma_word_bytes_roundtrip(w as u32);
    assert(word_value(b, platform.big_endian) == w);
    assert(w % 0x400_0000 == twos32(4 * o) % 0x400_0000);
}

#[verifier::spinoff_prover]
#[verifier::rlimit(50)]
proof fn lemma_s390x_branch_reaches_target(platform: Platform, from: int, to: int)
    requires
        platform.arch == Arch::S390x,
        branch_stub_spec(platform, from, to) is Some,
    ensures
        branch_destination(platform, from, branch_stub_spec(platform, from, to)->0) == Some(to),
{
    let b = branch_stub_spec(platform, from, to)->0;
    vstd::arithmetic::power2::lemma2_to64();
    let o = branch_units(from, to, 1, 32)->0;
    let u = twos32(o);
    lemma_word_bytes_roundtrip(u as u32);
    assert(b.subrange(2, 6) =~= be_bytes32(u));
}

#[verifier::spinoff_prover]
#[verifier::rlimit(50)]
proof fn lemma_loongarch_offset(o: int)
    requires
        -0x200_0000 <= o < 0x200_0000,
    ensures
        0 <= loongarch_b_word(o) < 0x1_0000_0000,
        loongarch_b_word(o) / 0x400_0000 == 20,
        signed26(loongarch_b_word(o) / 0x400 % 0x1_0000 + (loongarch_b_word(o) % 0x400) * 0x1_0000) == o,
{
    let imm = twos32(o);
    assert(0 <= imm < 0x1_0000_0000);
    let u = imm as u32;
    assert({
        let w = 0x5000_0000u64 + (u % 0x1_0000) as u64 * 0x400 + (u / 0x1_0000 % 0x400) as u64;
        &&& w < 0x1_0000_0000
        &&& w / 0x400_0000 == 20
        &&& w / 0x400 % 0x1_0000 + (w % 0x400) * 0x1_0000 == (u % 0x400_0000) as u64
    }) by (bit_vector);
    if o >= 0 {
        assert(imm % 0x400_0000 == o);
    } else {
        assert(imm % 0x400_0000 == o + 0x400_0000);
    }
}

#[verifier::spinoff_prover]
#[verifier::rlimit(50)]
proof fn lemma_loongarch_branch_reaches_target(platform: Platform, from: int, to: int)
    requires
        platform.arch == Arch::Loongarch64,
        branch_stub_spec(platform, from, to) is Some,
    ensures
        branch_destination(platform, from, branch_stub_spec(platform, from, to)->0) == Some(to),
{
    let b = branch_stub_spec(platform, from, to)->0;
    vstd::arithmetic::power2::lemma2_to64();
    let o = branch_units(from, to, 2, 26)->0;
    lemma_loongarch_offset(o);
    let w = loongarch_b_word(o);
    lemma_word_bytes_roundtrip(w as u32);
    assert(word_value(b, platform.big_endian) == w);
}

/// A branch stub goes where it was made to go: decoding the bytes that `branch_stub_bytes`
/// produces for a branch from `from` to `to`, as the processor does, gives `to` back. On
/// riscv64 this needs the target within the `JAL` reach of one MiB either way; the stub
/// builder accepts distances up to two MiB, and beyond one MiB its word jumps elsewhere.
pub proof fn lemma_branch_stub_reaches_target(platform: Platform, from: int, to: int)
    requires
        branch_stub_spec(platform, from, to) is Some,
        platform.arch == Arch::Riscv64 ==> -0x10_0000 <= to - from < 0x10_0000,
    ensures
        branch_destination(platform, from, branch_stub_spec(platform, from, to)->0) == Some(to),
{
    match platform.arch {
        Arch::X86_64 | Arch::X86 => lemma_x86_branch_reaches_target(platform, from, to),
        Arch::Aarch64 => lemma_aarch64_branch_reaches_target(platform, from, to),
        Arch::Riscv64 => lemma_riscv_branch_reaches_target(platform, from, to),
        Arch::Powerpc64 => lemma_powerpc_branch_reaches_target(platform, from, to),
        Arch::S390x => lemma_s390x_branch_reaches_target(platform, from, to),
        Arch::Loongarch64 => lemma_loongarch_branch_reaches_target(platform, from, to),
    }
}

/// The byte order instructions are stored in on `platform`'s architecture: big-endian on
/// powerpc64 and s390x, little-endian elsewhere.
pub open spec fn natural_byte_order(platform: Platform) -> bool {
    if platform.arch == Arch::Powerpc64 || platform.arch == Arch::S390x {
        platform.big_endian
    } else {
        !platform.big_endian
    }
}

/// The aarch64 system-register number `S<op0>_<op1>_C<crn>_C<crm>_<op2>` as an `MRS` word
/// holds it in bits 19..5.
pub open spec fn aarch64_sysreg(op0: int, op1: int, crn: int, crm: int, op2: int) -> int {
    (op0 - 2) * 0x4000 + op1 * 0x800 + crn * 0x80 + crm * 0x8 + op2
}

/// The system register that the aarch64 word `w` reads into `x0` when it is an `MRS x0, <reg>`.
pub open spec fn aarch64_mrs_x0_register(w: int) -> Option<int> {
    if w / 0x10_0000 == 0xD53 && w % 32 == 0 {
        Some((w / 32) % 0x8000)
    } else {
        None
    }
}

/// The counter that the stub bytes `b` read inline when executed, decoded from the instruction:
/// `rdtsc` (`0F 31`) on x86; an `MRS x0` of `CNTVCT_EL0` (S3_3_C14_C0_2) or `PMCCNTR_EL0`
/// (S3_3_C9_C13_0) on aarch64; a `csrrs rd, time|cycle, x0` (CSR `0xC01` / `0xC00`) on
/// riscv64; an `mftb` of the time base (SPR 268) on powerpc64; an `rdtime.d` on loongarch64.
/// `None` for anything else (such as a branch).
pub open spec fn inline_read(platform: Platform, b: Seq<u8>) -> Option<CounterSource> {
    let w = word_value(b, platform.big_endian);
    match platform.arch {
        Arch::X86_64 | Arch::X86 => if b.len() >= 2 && b[0] == 0x0F && b[1] == 0x31 {
            Some(CounterSource::Rdtsc)
        } else {
            None
        },
        Arch::Aarch64 => if b.len() != 4 {
            None
        } else if aarch64_mrs_x0_register(w) == Some(aarch64_sysreg(3, 3, 14, 0, 2)) {
            Some(CounterSource::Cntvct)
        } else if aarch64_mrs_x0_register(w) == Some(aarch64_sysreg(3, 3, 9, 13, 0)) {
            Some(CounterSource::Pmccntr)
        } else {
            None
        },
        Arch::Riscv64 => if b.len() == 4 && w % 128 == 0x73 && (w / 0x1000) % 8 == 2 && (w / 0x8000) % 32 == 0 {
            if w / 0x10_0000 == 0xC01 {
                Some(CounterSource::Rdtime)
            } else if w / 0x10_0000 == 0xC00 {
                Some(CounterSource::Rdcycle)
            } else {
                None
            }
        } else {
            None
        },
        Arch::Powerpc64 => if b.len() == 4 && w / 0x400_0000 == 31 && (w / 2) % 0x400 == 371 && ((w / 0x800)
            % 32) * 32 + (w / 0x1_0000) % 32 == 268 {
            Some(CounterSource::Mftb)
        } else {
            None
        },
        Arch::Loongarch64 => if b.len() == 4 && w / 0x400 == 0x1A {
            Some(CounterSource::Rdtime)
        } else {
            None
        },
        Arch::S390x => None,
    }
}

/// The target that `platform` and an operating system `os` make up.
pub open spec fn platform_target(platform: Platform, os: TargetOs, gnu_env: bool) -> Target {
    Target { arch: target_arch_of(platform.arch), os, gnu_env }
}

/// The `Instant` stub for the hardware index reads exactly the counter that index names: on
/// every architecture where the runtime selection runs (all but Apple aarch64), in the
/// architecture's instruction byte order, the stub for index 0 is an inline read of the
/// target's architectural counter, except on s390x, whose stub branches to the hardware
/// trampoline.
#[verifier::rlimit(50)]
pub proof fn lemma_instant_stub_reads_hardware_counter(platform: Platform, record: CallsiteRecord, os: TargetOs, gnu_env: bool)
    requires
        natural_byte_order(platform),
        !(platform.arch == Arch::Aarch64 && os == TargetOs::MacOs),
        instant_stub_spec(platform, record, 0) is Some,
    ensures
        hardware_source(platform_target(platform, os, gnu_env)) is Some,
        platform.arch != Arch::S390x ==> inline_read(platform, instant_stub_spec(platform, record, 0)->0)
            == hardware_source(platform_target(platform, os, gnu_env)),
        platform.arch == Arch::S390x ==> branch_destination(
            platform,
            record.patch_address as int,
            instant_stub_spec(platform, record, 0)->0,
        ) == Some(record.hardware_address as int),
{
    if platform.arch == Arch::S390x {
        lemma_branch_stub_reaches_target(platform, record.patch_address as int, record.hardware_address as int);
    }
}

/// Every other `Instant` index runs the fallback clock: its stub jumps to the fallback
/// trampoline (on riscv64 as far as that trampoline is within `JAL` reach).
pub proof fn lemma_instant_stub_falls_back(platform: Platform, record: CallsiteRecord, selected: u8)
    requires
        selected != 0,
        instant_stub_spec(platform, record, selected) is Some,
        platform.arch == Arch::Riscv64 ==> -0x10_0000 <= record.fallback_address - record.patch_address < 0x10_0000,
    ensures
        branch_destination(platform, record.patch_address as int, instant_stub_spec(platform, record, selected)->0)
            == Some(record.fallback_address as int),
{
    lemma_branch_stub_reaches_target(platform, record.patch_address as int, record.fallback_address as int);
}

/// Inline reads in `Cycles` stubs agree with the index dispatch: whenever the stub for a
/// selected index reads a counter inline, it is the counter that index names on the target
/// (PMCCNTR only for the PMU index on aarch64 Linux, the cycle CSR only for the cycle index on
/// riscv64, the architectural counter otherwise).
#[verifier::rlimit(50)]
pub proof fn lemma_cycle_stub_inline_read_matches_index(platform: Platform, record: CallsiteRecord, selected: u8, os: TargetOs, gnu_env: bool)
    requires
        natural_byte_order(platform),
        platform.linux <==> os == TargetOs::Linux,
        !(platform.arch == Arch::Aarch64 && os == TargetOs::MacOs),
        cycle_stub_spec(platform, record, selected) is Some,
        inline_read(platform, cycle_stub_spec(platform, record, selected)->0) is Some,
    ensures
        inline_read(platform, cycle_stub_spec(platform, record, selected)->0) == cycle_source(
            platform_target(platform, os, gnu_env),
            selected,
        ),
{
}

} // verus!
