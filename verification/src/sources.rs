//! Which counter a selected index names on each target.
//!
//! A clock class publishes a small index (see [`crate::indices`]); every read then dispatches
//! on it. The indices are per target: index 0 is the architectural wall-clock counter, index 1
//! the operating-system fallback, and the higher indices the cycle counters that only `Cycles`
//! may select. The read itself is hardware access done by the caller; this module decides what
//! is read.

use vstd::prelude::*;

use crate::indices;
use crate::selection::cycle_candidates_spec;
use crate::stub::Arch;
use crate::target::{has_native_counter, is_unix, unix, Target, TargetArch, TargetOs};

verus! {

/// A counter the crate can read.
#[derive(Clone, Copy, Debug, PartialEq, Eq, Structural)]
pub enum CounterSource {
    /// The x86 / x86_64 time-stamp counter.
    Rdtsc,
    /// The aarch64 virtual counter `CNTVCT_EL0`.
    Cntvct,
    /// The riscv64 / loongarch64 time counter.
    Rdtime,
    /// The powerpc64 time base.
    Mftb,
    /// The s390x store-clock-fast counter.
    Stckf,
    /// `clock_gettime(CLOCK_MONOTONIC)`.
    ClockMonotonic,
    /// macOS `mach_absolute_time`.
    MachTime,
    /// Nanoseconds since the first read of std's monotonic `Instant`.
    StdInstant,
    /// The aarch64 PMU cycle counter `PMCCNTR_EL0`, read directly.
    Pmccntr,
    /// The aarch64 PMU cycle counter read through a perf event, or `CNTVCT_EL0` when that read
    /// fails.
    PerfPmccntr,
    /// The x86 fixed-function core-cycle counter, read with `rdpmc`.
    DirectRdpmc,
    /// The x86 core-cycle counter read through a perf event, or the time-stamp counter when
    /// that read fails.
    PerfRdpmc,
    /// The riscv64 cycle counter.
    Rdcycle,
}

/// The operating-system clock of `os` on the architectures that read a wall-clock counter of
/// their own: Mach time on macOS, the monotonic clock on other Unixes, std's `Instant`
/// elsewhere.
pub open spec fn os_fallback(os: TargetOs) -> CounterSource {
    if os == TargetOs::MacOs {
        CounterSource::MachTime
    } else if is_unix(os) {
        CounterSource::ClockMonotonic
    } else {
        CounterSource::StdInstant
    }
}

/// The fallback clock on `target`, where the runtime selection runs there (it does not on
/// Apple aarch64, nor on architectures without a counter of their own).
pub open spec fn fallback_source(target: Target) -> Option<CounterSource> {
    match target.arch {
        TargetArch::X86_64 | TargetArch::X86 => Some(os_fallback(target.os)),
        TargetArch::Aarch64 => if target.os == TargetOs::MacOs {
            None
        } else if is_unix(target.os) {
            Some(CounterSource::ClockMonotonic)
        } else {
            Some(CounterSource::StdInstant)
        },
        TargetArch::Riscv64 | TargetArch::Powerpc64 | TargetArch::S390x
        | TargetArch::Loongarch64 => if is_unix(target.os) {
            Some(CounterSource::ClockMonotonic)
        } else {
            Some(CounterSource::StdInstant)
        },
        TargetArch::Wasm32 | TargetArch::Other => None,
    }
}

/// The architectural wall-clock counter on `target`, where the runtime selection runs there.
pub open spec fn hardware_source(target: Target) -> Option<CounterSource> {
    match target.arch {
        TargetArch::X86_64 | TargetArch::X86 => Some(CounterSource::Rdtsc),
        TargetArch::Aarch64 => if target.os == TargetOs::MacOs {
            None
        } else {
            Some(CounterSource::Cntvct)
        },
        TargetArch::Riscv64 | TargetArch::Loongarch64 => Some(CounterSource::Rdtime),
        TargetArch::Powerpc64 => Some(CounterSource::Mftb),
        TargetArch::S390x => Some(CounterSource::Stckf),
        TargetArch::Wasm32 | TargetArch::Other => None,
    }
}

/// The counter that `Instant` index `sel` names on `target`; `None` for an index that no
/// `Instant` selection there publishes.
pub open spec fn instant_source(target: Target, sel: u8) -> Option<CounterSource> {
    if sel == 0 {
        hardware_source(target)
    } else if sel == indices::CLOCK_MONOTONIC {
        fallback_source(target)
    } else {
        None
    }
}

/// The counter that `Cycles` index `sel` names on `target`: the cycle counters of x86 and
/// x86_64 Linux, aarch64 Linux and riscv64, and otherwise what the same `Instant` index names.
pub open spec fn cycle_source(target: Target, sel: u8) -> Option<CounterSource> {
    let linux = target.os == TargetOs::Linux;
    match target.arch {
        TargetArch::X86_64 | TargetArch::X86 => if linux && sel == indices::DIRECT_RDPMC {
            Some(CounterSource::DirectRdpmc)
        } else if linux && sel == indices::PERF_RDPMC {
            Some(CounterSource::PerfRdpmc)
        } else {
            instant_source(target, sel)
        },
        TargetArch::Aarch64 => if linux && sel == indices::PMCCNTR {
            Some(CounterSource::Pmccntr)
        } else if linux && sel == indices::PERF_PMCCNTR {
            Some(CounterSource::PerfPmccntr)
        } else {
            instant_source(target, sel)
        },
        TargetArch::Riscv64 => if sel == indices::RDCYCLE {
            Some(CounterSource::Rdcycle)
        } else {
            instant_source(target, sel)
        },
        _ => instant_source(target, sel),
    }
}

/// The fallback clock that `target` reads when no counter of its own is usable.
pub fn platform_fallback(target: Target) -> (r: Option<CounterSource>)
    ensures
        r == fallback_source(target),
{
    match target.arch {
        TargetArch::X86_64 | TargetArch::X86 => {
            if target.os == TargetOs::MacOs {
                Some(CounterSource::MachTime)
            } else if unix(target.os) {
                Some(CounterSource::ClockMonotonic)
            } else {
                Some(CounterSource::StdInstant)
            }
        },
        TargetArch::Aarch64 => {
            if target.os == TargetOs::MacOs {
                None
            } else if unix(target.os) {
                Some(CounterSource::ClockMonotonic)
            } else {
                Some(CounterSource::StdInstant)
            }
        },
        TargetArch::Riscv64 | TargetArch::Powerpc64 | TargetArch::S390x
        | TargetArch::Loongarch64 => {
            if unix(target.os) {
                Some(CounterSource::ClockMonotonic)
            } else {
                Some(CounterSource::StdInstant)
            }
        },
        TargetArch::Wasm32 | TargetArch::Other => None,
    }
}

/// The architectural wall-clock counter that a direct hardware read takes on `target`.
pub fn direct_hardware(target: Target) -> (r: Option<CounterSource>)
    ensures
        r == hardware_source(target),
{
    match target.arch {
        TargetArch::X86_64 | TargetArch::X86 => Some(CounterSource::Rdtsc),
        TargetArch::Aarch64 => {
            if target.os == TargetOs::MacOs {
                None
            } else {
                Some(CounterSource::Cntvct)
            }
        },
        TargetArch::Riscv64 | TargetArch::Loongarch64 => Some(CounterSource::Rdtime),
        TargetArch::Powerpc64 => Some(CounterSource::Mftb),
        TargetArch::S390x => Some(CounterSource::Stckf),
        TargetArch::Wasm32 | TargetArch::Other => None,
    }
}

/// The counter that a read of the selected `Instant` index `sel` takes on `target`, or `None`
/// for an index that no selection there publishes.
pub fn selected_source(target: Target, sel: u8) -> (r: Option<CounterSource>)
    ensures
        r == instant_source(target, sel),
{
    if sel == 0 {
        direct_hardware(target)
    } else if sel == indices::CLOCK_MONOTONIC {
        platform_fallback(target)
    } else {
        None
    }
}

/// The counter that a read of the selected `Cycles` index `sel` takes on `target`, or `None`
/// for an index that no selection there publishes.
pub fn cycle_selected_source(target: Target, sel: u8) -> (r: Option<CounterSource>)
    ensures
        r == cycle_source(target, sel),
{
    let linux = target.os == TargetOs::Linux;
    match target.arch {
        TargetArch::X86_64 | TargetArch::X86 => {
            if linux && sel == indices::DIRECT_RDPMC {
                Some(CounterSource::DirectRdpmc)
            } else if linux && sel == indices::PERF_RDPMC {
                Some(CounterSource::PerfRdpmc)
            } else {
                selected_source(target, sel)
            }
        },
        TargetArch::Aarch64 => {
            if linux && sel == indices::PMCCNTR {
                Some(CounterSource::Pmccntr)
            } else if linux && sel == indices::PERF_PMCCNTR {
                Some(CounterSource::PerfPmccntr)
            } else {
                selected_source(target, sel)
            }
        },
        TargetArch::Riscv64 => {
            if sel == indices::RDCYCLE {
                Some(CounterSource::Rdcycle)
            } else {
                selected_source(target, sel)
            }
        },
        _ => selected_source(target, sel),
    }
}

/// The fallback index reads the fallback clock: on every target, what `Instant` index
/// `CLOCK_MONOTONIC` names is exactly the platform fallback, and index 0 is exactly the direct
/// hardware counter.
pub proof fn lemma_fixed_indices_agree(target: Target)
    ensures
        instant_source(target, indices::CLOCK_MONOTONIC) == fallback_source(target),
        instant_source(target, 0) == hardware_source(target),
{
}

/// `Cycles` reads agree with `Instant` reads on every index that `Instant` can select: the
/// cycle dispatch only adds counters, it never reinterprets a shared index.
pub proof fn lemma_cycle_dispatch_extends_instant(target: Target, sel: u8)
    requires
        instant_source(target, sel) is Some,
    ensures
        cycle_source(target, sel) == instant_source(target, sel),
{
}

/// The target architecture that a stub architecture stands for.
pub open spec fn target_arch_of(arch: Arch) -> TargetArch {
    match arch {
        Arch::X86_64 => TargetArch::X86_64,
        Arch::X86 => TargetArch::X86,
        Arch::Aarch64 => TargetArch::Aarch64,
        Arch::Riscv64 => TargetArch::Riscv64,
        Arch::Powerpc64 => TargetArch::Powerpc64,
        Arch::S390x => TargetArch::S390x,
        Arch::Loongarch64 => TargetArch::Loongarch64,
    }
}

/// Every index that a Linux `Cycles` selection can publish names a counter: each candidate's
/// index decodes to some source, so the dispatch on a published index never falls through.
pub proof fn lemma_cycle_candidates_decode(arch: Arch, gnu_env: bool, i: int)
    requires
        0 <= i < cycle_candidates_spec(arch).len(),
    ensures
        cycle_source(
            Target { arch: target_arch_of(arch), os: TargetOs::Linux, gnu_env },
            cycle_candidates_spec(arch)[i].1,
        ) is Some,
{
}

/// Every target on which the runtime selection runs has a hardware index: for every
/// architecture with a counter of its own, on every operating system except for Apple aarch64
/// (where `Instant` reads its counter directly), index 0 names a counter, and on aarch64 that
/// counter is the virtual counter `CNTVCT_EL0` (never the PMU cycle counter).
pub proof fn lemma_hardware_index_names_a_counter(target: Target)
    ensures
        hardware_source(target) is Some <==> has_native_counter(target.arch) && !(target.arch == TargetArch::Aarch64
            && target.os == TargetOs::MacOs),
        target.arch == TargetArch::Aarch64 && target.os != TargetOs::MacOs ==> hardware_source(target) == Some(
            CounterSource::Cntvct,
        ),
        hardware_source(target) matches Some(c) ==> c != CounterSource::Pmccntr && c != CounterSource::PerfPmccntr
            && c != CounterSource::DirectRdpmc && c != CounterSource::PerfRdpmc && c != CounterSource::Rdcycle
            && c != CounterSource::ClockMonotonic && c != CounterSource::MachTime && c != CounterSource::StdInstant,
        instant_source(target, 0) == hardware_source(target),
{
}

} // verus!
