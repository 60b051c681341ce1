//! Where the counter frequency comes from, and the arithmetic that turns each source into Hz.

use vstd::prelude::*;

use crate::target::{Target, TargetArch, TargetOs};

verus! {

/// The source of the counter frequency on a target.
#[derive(Clone, Copy, Debug, PartialEq, Eq, Structural)]
pub enum FrequencySource {
    /// The architectural frequency register (`CNTFRQ_EL0`).
    CounterRegister,
    /// `mach_timebase_info`.
    MachTimebase,
    /// `QueryPerformanceFrequency`.
    QueryPerformanceFrequency,
    /// The counter already counts nanoseconds: 1 GHz.
    FixedGigahertz,
    /// CPUID leaf 15h when it reports the TSC frequency, spin-loop calibration otherwise.
    CpuidThenCalibration,
    /// Spin-loop calibration against the operating-system clock.
    Calibration,
}

/// The frequency source on `target`.
pub open spec fn frequency_source_spec(target: Target) -> FrequencySource {
    if target.arch == TargetArch::Aarch64 {
        FrequencySource::CounterRegister
    } else if target.os == TargetOs::MacOs {
        FrequencySource::MachTimebase
    } else if target.os == TargetOs::Windows {
        FrequencySource::QueryPerformanceFrequency
    } else if target.arch == TargetArch::Wasm32 && target.os == TargetOs::Unknown {
        FrequencySource::FixedGigahertz
    } else if target.os == TargetOs::Wasi {
        FrequencySource::FixedGigahertz
    } else if target.arch == TargetArch::X86_64 || target.arch == TargetArch::X86 {
        FrequencySource::CpuidThenCalibration
    } else {
        FrequencySource::Calibration
    }
}

/// The frequency source on `target`: authoritative registers and OS calls where they exist, a
/// fixed 1 GHz where the counter is in nanoseconds, calibration elsewhere.
pub fn frequency_source(target: Target) -> (s: FrequencySource)
    ensures
        s == frequency_source_spec(target),
{
    if target.arch == TargetArch::Aarch64 {
        FrequencySource::CounterRegister
    } else if target.os == TargetOs::MacOs {
        FrequencySource::MachTimebase
    } else if target.os == TargetOs::Windows {
        FrequencySource::QueryPerformanceFrequency
    } else if target.arch == TargetArch::Wasm32 && target.os == TargetOs::Unknown {
        FrequencySource::FixedGigahertz
    } else if target.os == TargetOs::Wasi {
        FrequencySource::FixedGigahertz
    } else if target.arch == TargetArch::X86_64 || target.arch == TargetArch::X86 {
        FrequencySource::CpuidThenCalibration
    } else {
        FrequencySource::Calibration
    }
}

/// Whether recalibration re-derives the scale on `target`: only where the frequency came from
/// CPUID or calibration (x86 outside macOS and Windows); elsewhere the source is authoritative.
pub fn recalibration_applies(target: Target) -> (r: bool)
    ensures
        r == ((target.arch == TargetArch::X86_64 || target.arch == TargetArch::X86) && target.os != TargetOs::MacOs
            && target.os != TargetOs::Windows),
{
    (target.arch == TargetArch::X86_64 || target.arch == TargetArch::X86) && target.os != TargetOs::MacOs
        && target.os != TargetOs::Windows
}

/// The tick rate of a Mach timebase `numer / denom` (nanoseconds per tick): `1e9 * denom / numer` Hz.
pub fn mach_timebase_frequency(numer: u32, denom: u32) -> (hz: u64)
    requires
        numer != 0,
    ensures
        hz == (1_000_000_000 * denom as int) / numer as int,
{
    1_000_000_000u64 * (denom as u64) / (numer as u64)
}

/// The frequency that `QueryPerformanceFrequency` reported, reinterpreted as unsigned.
pub fn performance_counter_frequency(freq: i64) -> (hz: u64)
    ensures
        hz == (if freq >= 0 { freq as int } else { freq + 0x1_0000_0000_0000_0000 }),
{
    if freq >= 0 {
        freq as u64
    } else {
        ((freq as i128) + 0x1_0000_0000_0000_0000) as u64
    }
}

/// The TSC frequency that CPUID leaf 15h gives, `ecx * ebx / eax` Hz, or `None` when the
/// processor does not report leaf 15h (`max_leaf < 0x15`) or leaves one of its fields zero.
pub fn cpuid_tsc_hz(max_leaf: u32, eax: u32, ebx: u32, ecx: u32) -> (r: Option<u64>)
    ensures
        r is Some <==> (max_leaf >= 0x15 && eax != 0 && ebx != 0 && ecx != 0),
        r matches Some(hz) ==> hz == (ecx as int * ebx as int) / eax as int,
{
    if max_leaf < 0x15 {
        return None;
    }
    if eax == 0 || ebx == 0 || ecx == 0 {
        return None;
    }
    proof {
        vstd::arithmetic::mul::lemma_mul_upper_bound(ecx as int, u32::MAX as int, ebx as int, u32::MAX as int);
    }
    Some((ecx as u64) * (ebx as u64) / (eax as u64))
}

/// The frequency is measured only where nothing reports it: every aarch64 target reads the
/// architectural frequency register (`CNTFRQ_EL0`) whatever the operating system; macOS and
/// Windows elsewhere ask the operating system; nanosecond counters are fixed at 1 GHz; x86
/// tries CPUID before calibrating; and plain calibration is left for the remaining targets.
pub proof fn lemma_frequency_source_authority(target: Target)
    ensures
        target.arch == TargetArch::Aarch64 ==> frequency_source_spec(target) == FrequencySource::CounterRegister,
        frequency_source_spec(target) == FrequencySource::CounterRegister ==> target.arch == TargetArch::Aarch64,
        target.arch != TargetArch::Aarch64 && target.os == TargetOs::MacOs ==> frequency_source_spec(target)
            == FrequencySource::MachTimebase,
        target.arch != TargetArch::Aarch64 && target.os == TargetOs::Windows ==> frequency_source_spec(target)
            == FrequencySource::QueryPerformanceFrequency,
        target.os == TargetOs::Wasi ==> frequency_source_spec(target) != FrequencySource::Calibration
            && frequency_source_spec(target) != FrequencySource::CpuidThenCalibration,
        frequency_source_spec(target) == FrequencySource::Calibration ==> {
            &&& target.arch != TargetArch::Aarch64
            &&& target.arch != TargetArch::X86_64
            &&& target.arch != TargetArch::X86
            &&& target.os != TargetOs::MacOs
            &&& target.os != TargetOs::Windows
            &&& target.os != TargetOs::Wasi
            &&& !(target.arch == TargetArch::Wasm32 && target.os == TargetOs::Unknown)
        },
        recalibration_applies_spec(target) ==> frequency_source_spec(target) == FrequencySource::CpuidThenCalibration
            || frequency_source_spec(target) == FrequencySource::FixedGigahertz,
{
}

/// Whether a recalibration re-derives the scale on `target`.
pub open spec fn recalibration_applies_spec(target: Target) -> bool {
    (target.arch == TargetArch::X86_64 || target.arch == TargetArch::X86) && target.os != TargetOs::MacOs
        && target.os != TargetOs::Windows
}

} // verus!
