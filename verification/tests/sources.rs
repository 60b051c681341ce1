use std::time::Duration;

use tach::background::{recalibration_interval_secs, RecalibrationSchedule, DEFAULT_INTERVAL_SECS};
use tach::indices;
use tach::selection::cycle_candidates;
use tach::selector::{cycle_implementation, implementation};
use tach::sources::{cycle_selected_source, direct_hardware, platform_fallback, selected_source, CounterSource};
use tach::stub::Arch;
use tach::target::{Target, TargetArch, TargetOs};

fn target(arch: TargetArch, os: TargetOs) -> Target {
    Target { arch, os, gnu_env: true }
}

#[test]
fn fallback_clock_per_platform() {
    assert_eq!(platform_fallback(target(TargetArch::X86_64, TargetOs::MacOs)), Some(CounterSource::MachTime));
    assert_eq!(platform_fallback(target(TargetArch::X86_64, TargetOs::Linux)), Some(CounterSource::ClockMonotonic));
    assert_eq!(platform_fallback(target(TargetArch::X86, TargetOs::Windows)), Some(CounterSource::StdInstant));
    assert_eq!(platform_fallback(target(TargetArch::Aarch64, TargetOs::MacOs)), None);
    assert_eq!(platform_fallback(target(TargetArch::Aarch64, TargetOs::Windows)), Some(CounterSource::StdInstant));
    assert_eq!(platform_fallback(target(TargetArch::Riscv64, TargetOs::MacOs)), Some(CounterSource::ClockMonotonic));
    assert_eq!(platform_fallback(target(TargetArch::S390x, TargetOs::OtherNonUnix)), Some(CounterSource::StdInstant));
    assert_eq!(platform_fallback(target(TargetArch::Wasm32, TargetOs::Wasi)), None);
}

#[test]
fn hardware_counter_per_architecture() {
    assert_eq!(direct_hardware(target(TargetArch::X86, TargetOs::Linux)), Some(CounterSource::Rdtsc));
    assert_eq!(direct_hardware(target(TargetArch::Aarch64, TargetOs::Linux)), Some(CounterSource::Cntvct));
    assert_eq!(direct_hardware(target(TargetArch::Loongarch64, TargetOs::Linux)), Some(CounterSource::Rdtime));
    assert_eq!(direct_hardware(target(TargetArch::Powerpc64, TargetOs::Linux)), Some(CounterSource::Mftb));
    assert_eq!(direct_hardware(target(TargetArch::S390x, TargetOs::Linux)), Some(CounterSource::Stckf));
    assert_eq!(direct_hardware(target(TargetArch::Other, TargetOs::Linux)), None);
}

#[test]
fn selected_indices_decode() {
    let linux = target(TargetArch::X86_64, TargetOs::Linux);
    assert_eq!(selected_source(linux, indices::RDTSC), Some(CounterSource::Rdtsc));
    assert_eq!(selected_source(linux, indices::CLOCK_MONOTONIC), Some(CounterSource::ClockMonotonic));
    assert_eq!(selected_source(linux, indices::DIRECT_RDPMC), None);
    assert_eq!(cycle_selected_source(linux, indices::DIRECT_RDPMC), Some(CounterSource::DirectRdpmc));
    assert_eq!(cycle_selected_source(linux, indices::PERF_RDPMC), Some(CounterSource::PerfRdpmc));
    assert_eq!(cycle_selected_source(linux, 7), None);
    let mac = target(TargetArch::X86_64, TargetOs::MacOs);
    assert_eq!(cycle_selected_source(mac, indices::DIRECT_RDPMC), None);
    let arm = target(TargetArch::Aarch64, TargetOs::Linux);
    assert_eq!(cycle_selected_source(arm, indices::PMCCNTR), Some(CounterSource::Pmccntr));
    assert_eq!(cycle_selected_source(arm, indices::PERF_PMCCNTR), Some(CounterSource::PerfPmccntr));
    assert_eq!(cycle_selected_source(arm, indices::CNTVCT), Some(CounterSource::Cntvct));
    let rv = target(TargetArch::Riscv64, TargetOs::Linux);
    assert_eq!(cycle_selected_source(rv, indices::RDCYCLE), Some(CounterSource::Rdcycle));
    assert_eq!(cycle_selected_source(rv, indices::RDTIME), Some(CounterSource::Rdtime));
}

#[test]
fn fallback_index_reads_the_platform_fallback() {
    let arches = [
        TargetArch::X86_64,
        TargetArch::X86,
        TargetArch::Aarch64,
        TargetArch::Riscv64,
        TargetArch::Powerpc64,
        TargetArch::S390x,
        TargetArch::Loongarch64,
        TargetArch::Wasm32,
        TargetArch::Other,
    ];
    let oses = [TargetOs::Linux, TargetOs::MacOs, TargetOs::Windows, TargetOs::OtherUnix, TargetOs::OtherNonUnix];
    for arch in arches {
        for os in oses {
            let t = target(arch, os);
            assert_eq!(selected_source(t, indices::CLOCK_MONOTONIC), platform_fallback(t));
            assert_eq!(selected_source(t, 0), direct_hardware(t));
        }
    }
}

#[test]
fn every_cycle_candidate_index_decodes() {
    for (arch, target_arch) in [(Arch::X86_64, TargetArch::X86_64), (Arch::Aarch64, TargetArch::Aarch64)] {
        for candidate in cycle_candidates(arch) {
            assert!(cycle_selected_source(target(target_arch, TargetOs::Linux), candidate.index).is_some(), "{}", candidate.name);
        }
    }
}

#[test]
fn implementation_names_default_to_unknown() {
    assert_eq!(implementation(Some("x86_64-rdtsc")), "x86_64-rdtsc");
    assert_eq!(implementation(None), "unknown");
    assert_eq!(cycle_implementation(Some("aarch64-cntvct")), "aarch64-cntvct");
    assert_eq!(cycle_implementation(None), "unknown");
}

#[test]
fn recalibration_interval_is_clamped_to_a_second() {
    assert_eq!(recalibration_interval_secs(Duration::from_millis(10)), 1);
    assert_eq!(recalibration_interval_secs(Duration::ZERO), 1);
    assert_eq!(recalibration_interval_secs(Duration::from_millis(2_999)), 2);
    let mut schedule = RecalibrationSchedule::new();
    assert_eq!(schedule.interval_secs(), DEFAULT_INTERVAL_SECS);
    assert_eq!(DEFAULT_INTERVAL_SECS, 60);
    schedule.set_recalibration_interval(Duration::from_secs(5));
    assert_eq!(schedule.interval_secs(), 5);
    schedule.set_recalibration_interval(Duration::from_nanos(1));
    assert_eq!(schedule.interval_secs(), 1);
}
