use tach::direct::direct_source;
use tach::sources::CounterSource;
use tach::bench::{candidate_clocks, ClockCandidateKind};
use tach::direct;
use tach::frequency::{
    cpuid_tsc_hz, frequency_source, mach_timebase_frequency, performance_counter_frequency, recalibration_applies,
    FrequencySource,
};
use tach::patch::{branch_i32, branch_words, page_span, u32_store_allowed, u64_commit_allowed};
use tach::perf::{
    cap_user_rdpmc, cpu_cycles_event, cpu_vendor_is_intel, direct_rdpmc_enabled_for_all_processes,
    direct_rdpmc_fixed_core_cycles_available, perf_count, perf_rdpmc_cpu_cycles_checked, perf_read, pmccntr_readable,
    rdpmc_counter, sign_extend, snapshot_complete, PerfEventMmapPage,
};
use tach::target::{Target, TargetArch, TargetOs};

fn target(arch: TargetArch, os: TargetOs, gnu_env: bool) -> Target {
    Target { arch, os, gnu_env }
}

#[test]
fn direct_implementation_names() {
    assert_eq!(direct::implementation(target(TargetArch::Aarch64, TargetOs::MacOs, false)), Some("aarch64-cntvct"));
    assert_eq!(direct::implementation(target(TargetArch::Other, TargetOs::MacOs, false)), Some("macos-mach"));
    assert_eq!(direct::implementation(target(TargetArch::Other, TargetOs::Linux, true)), Some("unix-monotonic"));
    assert_eq!(direct::implementation(target(TargetArch::Wasm32, TargetOs::Wasi, false)), Some("std-instant"));
    assert_eq!(direct::implementation(target(TargetArch::X86_64, TargetOs::Linux, true)), None);
}

#[test]
fn frequency_sources() {
    assert_eq!(frequency_source(target(TargetArch::Aarch64, TargetOs::MacOs, false)), FrequencySource::CounterRegister);
    assert_eq!(frequency_source(target(TargetArch::X86_64, TargetOs::MacOs, false)), FrequencySource::MachTimebase);
    assert_eq!(frequency_source(target(TargetArch::X86_64, TargetOs::Windows, false)), FrequencySource::QueryPerformanceFrequency);
    assert_eq!(frequency_source(target(TargetArch::Wasm32, TargetOs::Unknown, false)), FrequencySource::FixedGigahertz);
    assert_eq!(frequency_source(target(TargetArch::Wasm32, TargetOs::Wasi, false)), FrequencySource::FixedGigahertz);
    assert_eq!(frequency_source(target(TargetArch::X86, TargetOs::Linux, true)), FrequencySource::CpuidThenCalibration);
    assert_eq!(frequency_source(target(TargetArch::Riscv64, TargetOs::Linux, true)), FrequencySource::Calibration);
    assert!(recalibration_applies(target(TargetArch::X86_64, TargetOs::Linux, true)));
    assert!(!recalibration_applies(target(TargetArch::X86_64, TargetOs::Windows, false)));
    assert!(!recalibration_applies(target(TargetArch::Aarch64, TargetOs::Linux, true)));
}

#[test]
fn frequency_arithmetic() {
    assert_eq!(mach_timebase_frequency(125, 3), 24_000_000);
    assert_eq!(mach_timebase_frequency(1, 1), 1_000_000_000);
    assert_eq!(performance_counter_frequency(10_000_000), 10_000_000);
    assert_eq!(performance_counter_frequency(-1), u64::MAX);
    assert_eq!(cpuid_tsc_hz(0x16, 2, 176, 38_400_000), Some(3_379_200_000));
    assert_eq!(cpuid_tsc_hz(0x14, 2, 176, 38_400_000), None);
    assert_eq!(cpuid_tsc_hz(0x16, 2, 176, 0), None);
}

#[test]
fn benchmark_candidates() {
    let linux = candidate_clocks(target(TargetArch::X86_64, TargetOs::Linux, true));
    assert_eq!(linux.len(), 14);
    assert!(linux[2].requires_child_process);
    assert!(linux[1].has_prepare);
    assert_eq!(linux[7].name, "unix-monotonic");
    assert_eq!(linux[7].kind.as_str(), "os-fallback");
    assert_eq!(linux[0].kind, ClockCandidateKind::Hardware);
    let musl = candidate_clocks(target(TargetArch::X86_64, TargetOs::Linux, false));
    assert_eq!(musl.len(), 12);
    let mac = candidate_clocks(target(TargetArch::Aarch64, TargetOs::MacOs, false));
    assert_eq!(mac.len(), 2);
    assert!(!mac[1].selected_by_hotclock);
    let riscv = candidate_clocks(target(TargetArch::Riscv64, TargetOs::OtherNonUnix, false));
    assert_eq!(riscv[1].name, "std-instant");
    let wasm = candidate_clocks(target(TargetArch::Wasm32, TargetOs::Unknown, false));
    assert_eq!(wasm.len(), 1);
    assert_eq!(wasm[0].name, "std-instant");
}

#[test]
fn branch_displacements() {
    assert_eq!(branch_i32(0x1000, 0x1040, 5), Some(0x3B));
    assert_eq!(branch_i32(0, 0x1_0000_0000, 5), None);
    assert_eq!(branch_i32(usize::MAX, 0, 5), None);
    assert_eq!(branch_words(0x1000, 0x1040, 2, 26), Some(0x10));
    assert_eq!(branch_words(0x1040, 0x1000, 2, 26), Some(-0x10));
    assert_eq!(branch_words(0x1000, 0x1003, 2, 26), None);
    assert_eq!(branch_words(0, 0x100, 2, 6), None);
    assert_eq!(branch_words(0, 0x7C, 2, 6), Some(0x1F));
    assert_eq!(branch_words(0, 4, 64, 26), None);
}

#[test]
fn page_spans_and_store_checks() {
    assert_eq!(page_span(0x1234, 9, 0x1000), Some((0x1000, 0x1000)));
    assert_eq!(page_span(0x1FFC, 9, 0x1000), Some((0x1000, 0x2000)));
    assert_eq!(page_span(usize::MAX - 3, 9, 0x1000), None);
    assert!(u64_commit_allowed(0x1000, 9, 8));
    assert!(!u64_commit_allowed(0x1004, 9, 8));
    assert!(!u64_commit_allowed(0x1000, 7, 8));
    assert!(!u64_commit_allowed(0x1000, 9, 4));
    assert!(u32_store_allowed(0x1004));
    assert!(!u32_store_allowed(0x1006));
}

#[test]
fn perf_capability_bits() {
    assert!(cap_user_rdpmc(0b001));
    assert!(!cap_user_rdpmc(0b011));
    assert!(cap_user_rdpmc(0b110));
    assert!(!cap_user_rdpmc(0b000));
}

#[test]
fn sign_extension_of_raw_counters() {
    assert_eq!(sign_extend(0xFFFF_FFFF_FFFF, 48), -1);
    assert_eq!(sign_extend(0x7FFF_FFFF_FFFF, 48), 0x7FFF_FFFF_FFFF);
    assert_eq!(sign_extend(0x1_8000_0000_0000, 48), -0x8000_0000_0000);
    assert_eq!(sign_extend(u64::MAX, 64), -1);
    assert_eq!(sign_extend(5, 1), -1);
    assert_eq!(sign_extend(u64::MAX, 80), -1);
    assert_eq!(perf_count(10, 0xFFFF_FFFF_FFFF, 48), 9);
    assert_eq!(perf_count(0, 0xFFFF_FFFF_FFFF, 48), u64::MAX);
    assert_eq!(perf_count(i64::MAX, 1, 48), 0x8000_0000_0000_0000);
}

#[test]
fn perf_snapshots() {
    let page = PerfEventMmapPage {
        version: 0,
        compat_version: 0,
        lock: 2,
        index: 3,
        offset: 0,
        time_enabled: 0,
        time_running: 0,
        capabilities: 0b110,
        pmc_width: 48,
        time_shift: 0,
        time_mult: 0,
        time_offset: 0,
    };
    assert_eq!(rdpmc_counter(&page), Some(2));
    assert_eq!(rdpmc_counter(&PerfEventMmapPage { index: 0, ..page }), None);
    assert!(pmccntr_readable(&PerfEventMmapPage { index: 32, ..page }));
    assert!(!pmccntr_readable(&page));
    assert!(snapshot_complete(4, 4));
    assert!(!snapshot_complete(5, 5));
    assert!(!snapshot_complete(4, 6));
    assert_eq!(perf_read(&[None, None, Some(7), Some(8)]), Some(7));
    assert_eq!(perf_read(&[None; 3]), None);
    let mut late = vec![None; 100];
    late.push(Some(1));
    assert_eq!(perf_read(&late), None);
    assert_eq!(perf_rdpmc_cpu_cycles_checked(Some(5)), 5);
    let attr = cpu_cycles_event(72);
    assert_eq!(attr.flags, 96);
    assert_eq!(attr.size, 72);
}

#[test]
fn direct_rdpmc_policy() {
    assert!(cpu_vendor_is_intel(0x756E_6547, 0x4965_6E69, 0x6C65_746E));
    assert!(!cpu_vendor_is_intel(0x6874_7541, 0x6974_6E65, 0x444D_4163));
    assert!(direct_rdpmc_enabled_for_all_processes(&[None, Some(2)]));
    assert!(!direct_rdpmc_enabled_for_all_processes(&[Some(1), None]));
    assert!(direct_rdpmc_fixed_core_cycles_available(true, true, 1, 2));
    assert!(!direct_rdpmc_fixed_core_cycles_available(true, true, 2, 2));
    assert!(!direct_rdpmc_fixed_core_cycles_available(false, true, 1, 2));
}

#[test]
fn direct_reads_name_their_counter() {
    let t = |arch, os| Target { arch, os, gnu_env: false };
    assert_eq!(direct_source(t(TargetArch::Aarch64, TargetOs::MacOs)), Some(CounterSource::Cntvct));
    assert_eq!(direct_source(t(TargetArch::Other, TargetOs::MacOs)), Some(CounterSource::MachTime));
    assert_eq!(direct_source(t(TargetArch::Other, TargetOs::Linux)), Some(CounterSource::ClockMonotonic));
    assert_eq!(direct_source(t(TargetArch::Wasm32, TargetOs::Unknown)), Some(CounterSource::StdInstant));
    assert_eq!(direct_source(t(TargetArch::X86_64, TargetOs::Linux)), None);
}
