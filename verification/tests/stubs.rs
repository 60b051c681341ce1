use tach::aarch64_linux;
use tach::indices;
use tach::patch::{PatchOutcome, PatchStats};
use tach::stub::{
    branch_stub_bytes, finish_callsite, plan_callsite, stub_len_of, Arch, CallsiteRecord, ClockClass, Platform, StubAction,
};
use tach::x86_64_linux;

fn x86_64_linux_platform() -> Platform {
    Platform { arch: Arch::X86_64, linux: true, big_endian: false }
}

fn records() -> Vec<CallsiteRecord> {
    let mut out = Vec::new();
    out.push(CallsiteRecord { patch_address: 0, cold_address: 0, fallback_address: 0, hardware_address: 0 });
    for i in 0..4usize {
        let base = 0x40_0000 + i * 0x100;
        out.push(CallsiteRecord {
            patch_address: base,
            cold_address: 0x50_0000 + i * 0x40,
            fallback_address: 0x60_0000,
            hardware_address: 0x60_0040,
        });
    }
    out
}

fn patch_pass(platform: Platform, class: ClockClass, selected: u8, records: &[CallsiteRecord], memory: &mut Vec<Vec<u8>>) -> PatchStats {
    let mut stats = PatchStats::new();
    for (record, current) in records.iter().zip(memory.iter_mut()) {
        if record.patch_address == 0 {
            continue;
        }
        let action = plan_callsite(platform, class, record, selected, current);
        let written = match &action {
            StubAction::Write(bytes) => {
                *current = bytes.clone();
                true
            }
            _ => false,
        };
        stats.record(finish_callsite(&action, written));
    }
    stats
}

fn unpatched_memory(platform: Platform, records: &[CallsiteRecord]) -> Vec<Vec<u8>> {
    records
        .iter()
        .map(|r| branch_stub_bytes(platform, r.patch_address, r.cold_address).unwrap_or_default())
        .collect()
}

#[test]
fn selected_architecture_patches_registered_instant_callsites() {
    let platform = x86_64_linux_platform();
    let records = records();
    let mut memory = unpatched_memory(platform, &records);
    let stats = patch_pass(platform, ClockClass::Instant, indices::RDTSC, &records, &mut memory);
    assert_eq!(stats.failed, 0, "{stats:?}");
    assert_eq!(stats.patched + stats.already_patched, stats.registered, "{stats:?}");
    assert_eq!(stats.registered, 4);
    assert!(memory[1..].iter().all(|b| b == &vec![0x0F, 0x31, 0x48, 0xC1, 0xE2, 0x20, 0x48, 0x09, 0xD0]));
}

#[test]
fn selected_architecture_patches_registered_cycle_callsites() {
    let platform = Platform { arch: Arch::Aarch64, linux: true, big_endian: false };
    let records = records();
    let mut memory = unpatched_memory(platform, &records);
    let stats = patch_pass(platform, ClockClass::Cycles, indices::CLOCK_MONOTONIC, &records, &mut memory);
    assert_eq!(stats.failed, 0, "{stats:?}");
    assert_eq!(stats.patched + stats.already_patched, stats.registered, "{stats:?}");
}

#[test]
fn fallback_branch_gate_has_expected_width() {
    for arch in [Arch::X86_64, Arch::X86, Arch::Aarch64, Arch::Riscv64, Arch::Powerpc64, Arch::S390x, Arch::Loongarch64] {
        let platform = Platform { arch, linux: true, big_endian: false };
        let bytes = branch_stub_bytes(platform, 0x1000, 0x1040).expect("branch encodes");
        assert_eq!(bytes.len(), stub_len_of(arch));
    }
}

#[test]
fn rdtsc_patch_bytes_fill_the_entire_hot_region() {
    assert_eq!(x86_64_linux::RDTSC_BYTES.len(), x86_64_linux::PATCH_LEN);
}

#[test]
fn cntvct_bytes_encode_mrs_cntvct_el0() {
    assert_eq!(u32::from_le_bytes(aarch64_linux::CNTVCT_BYTES), 0xD53B_E040);
}

#[test]
fn x86_64_linux_cycle_selection_patches_registered_callsites() {
    let mut stats = PatchStats::new();
    for i in 0..3usize {
        let record = x86_64_linux::CallsiteRecord {
            patch_address: 0x40_0000 + i * 0x20,
            cold_address: 0x50_0000,
            fallback_address: 0x50_0100,
            direct_rdpmc_address: 0x50_0200,
            perf_rdpmc_address: 0x50_0300,
        };
        let current = x86_64_linux::branch_bytes(record.patch_address, record.cold_address).unwrap();
        let action = x86_64_linux::plan_callsite(ClockClass::Cycles, &record, indices::PERF_RDPMC, &current);
        let written = matches!(action, StubAction::Write(_));
        stats.record(finish_callsite(&action, written));
    }
    assert_eq!(stats.failed, 0, "{stats:?}");
    assert_eq!(stats.patched + stats.already_patched, stats.registered, "{stats:?}");
}

#[test]
fn aarch64_linux_cycle_selection_patches_registered_callsites() {
    let mut stats = PatchStats::new();
    for i in 0..3usize {
        let record = aarch64_linux::CallsiteRecord {
            patch_address: 0x40_0000 + i * 4,
            cold_address: 0x50_0000,
            fallback_address: 0x50_0100,
            perf_pmccntr_address: 0x50_0200,
        };
        let current = aarch64_linux::bl_bytes(record.patch_address, record.cold_address).unwrap();
        let action = aarch64_linux::plan_callsite(&record, aarch64_linux::CNTVCT, &current);
        let written = matches!(action, StubAction::Write(_));
        stats.record(finish_callsite(&action, written));
    }
    assert_eq!(stats.failed, 0, "{stats:?}");
    assert_eq!(stats.patched + stats.already_patched, stats.registered, "{stats:?}");
}

#[test]
fn second_pass_keeps_every_patched_stub() {
    let platform = x86_64_linux_platform();
    let records = records();
    let mut memory = unpatched_memory(platform, &records);
    let first = patch_pass(platform, ClockClass::Instant, indices::CLOCK_MONOTONIC, &records, &mut memory);
    assert_eq!(first.patched, 4);
    let second = patch_pass(platform, ClockClass::Instant, indices::CLOCK_MONOTONIC, &records, &mut memory);
    assert_eq!(second.already_patched, 4);
    assert_eq!(second.patched, 0);
}

#[test]
fn unexpected_stub_bytes_fail() {
    let platform = x86_64_linux_platform();
    let record = CallsiteRecord { patch_address: 0x1000, cold_address: 0x2000, fallback_address: 0x3000, hardware_address: 0 };
    let action = plan_callsite(platform, ClockClass::Instant, &record, indices::RDTSC, &[0xCC; 9]);
    assert!(matches!(action, StubAction::Fail));
    assert_eq!(finish_callsite(&action, true), PatchOutcome::Failed);
    let action = plan_callsite(platform, ClockClass::Instant, &record, indices::RDTSC, &[0xCC; 9]);
    assert_eq!(finish_callsite(&action, false), PatchOutcome::Failed);
}

#[test]
fn failed_write_counts_as_failure() {
    let platform = x86_64_linux_platform();
    let record = CallsiteRecord { patch_address: 0x1000, cold_address: 0x2000, fallback_address: 0x3000, hardware_address: 0 };
    let current = branch_stub_bytes(platform, 0x1000, 0x2000).unwrap();
    let action = plan_callsite(platform, ClockClass::Instant, &record, indices::RDTSC, &current);
    assert!(matches!(action, StubAction::Write(_)));
    assert_eq!(finish_callsite(&action, false), PatchOutcome::Failed);
    assert_eq!(finish_callsite(&action, true), PatchOutcome::Patched);
}

#[test]
fn x86_jump_encodes_displacement_after_the_instruction() {
    let platform = x86_64_linux_platform();
    let bytes = branch_stub_bytes(platform, 0x1000, 0x1040).unwrap();
    assert_eq!(bytes, vec![0xE9, 0x3B, 0x00, 0x00, 0x00, 0x90, 0x90, 0x90, 0x90]);
    let back = branch_stub_bytes(platform, 0x1040, 0x1000).unwrap();
    assert_eq!(i32::from_le_bytes([back[1], back[2], back[3], back[4]]), -0x45);
    let x86 = branch_stub_bytes(Platform { arch: Arch::X86, linux: true, big_endian: false }, 0x1000, 0x1040).unwrap();
    assert_eq!(x86.len(), 8);
}

#[test]
fn word_branches_encode_their_offsets() {
    let le = |arch| Platform { arch, linux: true, big_endian: false };
    let word = |b: Vec<u8>| u32::from_le_bytes([b[0], b[1], b[2], b[3]]);
    assert_eq!(word(branch_stub_bytes(le(Arch::Aarch64), 0x1000, 0x1040).unwrap()), 0x1400_0010);
    assert_eq!(word(branch_stub_bytes(le(Arch::Aarch64), 0x1040, 0x1000).unwrap()), 0x17FF_FFF0);
    assert_eq!(word(branch_stub_bytes(le(Arch::Riscv64), 0x1000, 0x1040).unwrap()), 0x0400_006F);
    assert_eq!(word(branch_stub_bytes(le(Arch::Loongarch64), 0x1000, 0x1040).unwrap()), 0x5000_4000);
    let ppc = branch_stub_bytes(Platform { arch: Arch::Powerpc64, linux: true, big_endian: true }, 0x1000, 0x1040).unwrap();
    assert_eq!(ppc, vec![0x48, 0x00, 0x00, 0x40]);
    let s390 = branch_stub_bytes(le(Arch::S390x), 0x1000, 0x1040).unwrap();
    assert_eq!(s390, vec![0xC0, 0xF4, 0x00, 0x00, 0x00, 0x20, 0x07, 0x00]);
    assert_eq!(branch_stub_bytes(le(Arch::Aarch64), 0x1000, 0x1002), None);
    assert_eq!(branch_stub_bytes(le(Arch::Aarch64), 0, 0x1000_0000), None);
    assert_eq!(word(aarch64_linux::bl_bytes(0x1000, 0x1040).unwrap()), 0x9400_0010);
}

#[test]
fn rdtsc_selection_patches_registered_instant_callsites_when_selected() {
    let mut stats = PatchStats::new();
    let mut written_bytes = Vec::new();
    for i in 0..3usize {
        let record = x86_64_linux::CallsiteRecord {
            patch_address: 0x40_0000 + i * 0x20,
            cold_address: 0x50_0000,
            fallback_address: 0x50_0100,
            direct_rdpmc_address: 0x50_0200,
            perf_rdpmc_address: 0x50_0300,
        };
        let current = x86_64_linux::branch_bytes(record.patch_address, record.cold_address).unwrap();
        let action = x86_64_linux::plan_callsite(ClockClass::Instant, &record, indices::RDTSC, &current);
        if let StubAction::Write(bytes) = &action {
            written_bytes.push(bytes.clone());
        }
        let written = matches!(action, StubAction::Write(_));
        stats.record(finish_callsite(&action, written));
    }
    assert!(!written_bytes.is_empty());
    assert!(written_bytes.iter().all(|bytes| bytes.as_slice() == &x86_64_linux::RDTSC_BYTES[..]), "{written_bytes:02x?}");
    assert_eq!(stats.failed, 0, "{stats:?}");
    assert_eq!(stats.patched + stats.already_patched, stats.registered, "{stats:?}");
}

fn sign_extend(value: u32, bits: u32) -> i64 {
    let shift = 64 - bits;
    ((u64::from(value) << shift) as i64) >> shift
}

#[test]
fn branch_stubs_decode_to_their_targets() {
    let x86 = Platform { arch: Arch::X86_64, linux: true, big_endian: false };
    for (from, to) in [(0x40_0000usize, 0x50_0000usize), (0x50_0000, 0x40_0000), (0x1000, 0x1005)] {
        let b = branch_stub_bytes(x86, from, to).unwrap();
        assert_eq!(b[0], 0xE9);
        let rel = i32::from_le_bytes([b[1], b[2], b[3], b[4]]) as i64;
        assert_eq!(from as i64 + 5 + rel, to as i64);
    }
    let arm = Platform { arch: Arch::Aarch64, linux: true, big_endian: false };
    for (from, to) in [(0x40_0000usize, 0x50_0000usize), (0x50_0000, 0x40_0000)] {
        let b = branch_stub_bytes(arm, from, to).unwrap();
        let w = u32::from_le_bytes([b[0], b[1], b[2], b[3]]);
        assert_eq!(w >> 26, 5);
        assert_eq!(from as i64 + 4 * sign_extend(w & 0x03ff_ffff, 26), to as i64);
    }
    let loong = Platform { arch: Arch::Loongarch64, linux: true, big_endian: false };
    let (from, to) = (0x50_0000usize, 0x40_0000usize);
    let b = branch_stub_bytes(loong, from, to).unwrap();
    let w = u32::from_le_bytes([b[0], b[1], b[2], b[3]]);
    let offs = ((w >> 10) & 0xffff) | ((w & 0x3ff) << 16);
    assert_eq!(from as i64 + 4 * sign_extend(offs, 26), to as i64);
}

#[test]
fn riscv_branch_stub_decodes_within_jal_reach() {
    let rv = Platform { arch: Arch::Riscv64, linux: true, big_endian: false };
    let decode = |b: &[u8]| {
        let w = u32::from_le_bytes([b[0], b[1], b[2], b[3]]);
        let imm = ((w >> 31) & 1) << 20 | ((w >> 21) & 0x3ff) << 1 | ((w >> 20) & 1) << 11 | ((w >> 12) & 0xff) << 12;
        sign_extend(imm, 21)
    };
    let from = 0x40_0000usize;
    for to in [from + 0xF_FFFE, from - 0x10_0000, from + 2] {
        let b = branch_stub_bytes(rv, from, to).unwrap();
        assert_eq!(from as i64 + decode(&b), to as i64);
    }
    let far = from + 0x10_0000;
    let b = branch_stub_bytes(rv, from, far).unwrap();
    assert_eq!(from as i64 + decode(&b), from as i64 - 0x10_0000);
}

#[test]
fn bl_stub_calls_its_trampoline() {
    for (from, to) in [(0x40_0000usize, 0x50_0000usize), (0x50_0000, 0x40_0000)] {
        let b = aarch64_linux::bl_bytes(from, to).unwrap();
        let w = u32::from_le_bytes([b[0], b[1], b[2], b[3]]);
        assert_eq!(w >> 26, 0b100101);
        assert_eq!(from as i64 + 4 * sign_extend(w & 0x03ff_ffff, 26), to as i64);
    }
    assert!(aarch64_linux::bl_bytes(0x40_0000, 0x40_0002).is_none());
}
