//! The clock candidates that benchmark tooling measures on each target.

use vstd::prelude::*;

use crate::target::{is_unix, unix, Target, TargetArch, TargetOs};

verus! {

/// Clock source family of a benchmark candidate.
#[derive(Clone, Copy, Debug, PartialEq, Eq, Structural)]
pub enum ClockCandidateKind {
    /// A CPU or platform counter read directly.
    Hardware,
    /// An operating-system timer, used when direct counters are unavailable or fail validation.
    OsFallback,
}

impl ClockCandidateKind {
    /// The label of the family.
    pub fn as_str(self) -> (s: &'static str)
        ensures
            s@ == (match self {
                ClockCandidateKind::Hardware => "hardware"@,
                ClockCandidateKind::OsFallback => "os-fallback"@,
            }),
    {
        match self {
            ClockCandidateKind::Hardware => "hardware",
            ClockCandidateKind::OsFallback => "os-fallback",
        }
    }
}

/// One clock source that benchmark tooling can measure. The reader itself is attached by the
/// caller, by name.
#[derive(Clone, Copy, Debug, PartialEq, Eq)]
pub struct ClockCandidate {
    /// Stable benchmark label.
    pub name: &'static str,
    /// Clock source family.
    pub kind: ClockCandidateKind,
    /// The production selection can use this source on the target.
    pub selected_by_hotclock: bool,
    /// A one-time setup step must complete before the timed read loop.
    pub has_prepare: bool,
    /// The read may fault when unavailable, so it only runs in a crash-isolated child process.
    pub requires_child_process: bool,
}

/// The observable description of a candidate.
pub type CandidateView = (Seq<char>, ClockCandidateKind, bool, bool, bool);

/// The description of `c`.
pub open spec fn candidate_view(c: ClockCandidate) -> CandidateView {
    (c.name@, c.kind, c.selected_by_hotclock, c.has_prepare, c.requires_child_process)
}

/// A hardware counter read without preparation.
pub open spec fn hw(name: Seq<char>, selected: bool) -> CandidateView {
    (name, ClockCandidateKind::Hardware, selected, false, false)
}

/// A hardware counter that needs a preparation step.
pub open spec fn prepared_hw(name: Seq<char>, selected: bool) -> CandidateView {
    (name, ClockCandidateKind::Hardware, selected, true, false)
}

/// A hardware counter that may fault and so runs in a child process.
pub open spec fn isolated_hw(name: Seq<char>, selected: bool) -> CandidateView {
    (name, ClockCandidateKind::Hardware, selected, false, true)
}

/// An operating-system timer.
pub open spec fn os_clock(name: Seq<char>, selected: bool) -> CandidateView {
    (name, ClockCandidateKind::OsFallback, selected, false, false)
}

/// The Linux clock variants measured besides the production fallback, with the vDSO entry
/// points on GNU.
pub open spec fn linux_clock_variants(gnu: bool) -> Seq<CandidateView> {
    seq![
        os_clock("unix-monotonic-raw"@, false),
        os_clock("linux-boottime"@, false),
        os_clock("linux-syscall-monotonic"@, false),
        os_clock("linux-syscall-monotonic-raw"@, false),
    ] + if gnu {
        seq![os_clock("linux-vdso-monotonic"@, false), os_clock("linux-vdso-monotonic-raw"@, false)]
    } else {
        Seq::empty()
    }
}

/// A native counter and the production fallback on targets with a single hardware candidate.
pub open spec fn counter_and_fallback(name: Seq<char>, os: TargetOs) -> Seq<CandidateView> {
    if is_unix(os) {
        seq![hw(name, true), os_clock("unix-monotonic"@, true)]
    } else {
        seq![hw(name, true), os_clock("std-instant"@, true)]
    }
}

/// The candidates measured on `target`.
pub open spec fn candidate_clocks_spec(target: Target) -> Seq<CandidateView> {
    let os = target.os;
    match target.arch {
        TargetArch::X86_64 => if os == TargetOs::MacOs {
            seq![hw("x86_64-rdtsc"@, true), os_clock("macos-mach"@, true)]
        } else if is_unix(os) {
            seq![
                hw("x86_64-rdpmc-fixed-core-cycles"@, false),
                prepared_hw("x86_64-rdpmc-fixed-core-cycles-raw"@, false),
                isolated_hw("x86_64-rdpmc-fixed-core-cycles-blind"@, false),
                hw("x86_64-perf-rdpmc-cpu-cycles"@, false),
                hw("x86_64-rdtsc"@, true),
                hw("x86_64-rdtscp"@, false),
                hw("x86_64-lfence-rdtsc"@, false),
                os_clock("unix-monotonic"@, true),
            ] + linux_clock_variants(target.gnu_env)
        } else {
            seq![hw("x86_64-rdtsc"@, true), os_clock("std-instant"@, true)]
        },
        TargetArch::X86 => if os == TargetOs::MacOs {
            seq![hw("x86-rdtsc"@, true), os_clock("macos-mach"@, true)]
        } else if is_unix(os) {
            seq![
                isolated_hw("x86-rdpmc-fixed-core-cycles-blind"@, false),
                hw("x86-rdtsc"@, true),
                hw("x86-rdtscp"@, false),
                hw("x86-lfence-rdtsc"@, false),
                os_clock("unix-monotonic"@, true),
            ] + linux_clock_variants(target.gnu_env)
        } else {
            seq![hw("x86-rdtsc"@, true), os_clock("std-instant"@, true)]
        },
        TargetArch::Aarch64 => if os == TargetOs::Linux {
            seq![
                isolated_hw("aarch64-pmccntr-el0-blind"@, false),
                hw("aarch64-cntvct"@, true),
                os_clock("unix-monotonic"@, true),
            ] + linux_clock_variants(target.gnu_env)
        } else if os == TargetOs::MacOs {
            seq![hw("aarch64-cntvct"@, true), os_clock("macos-mach"@, false)]
        } else {
            seq![hw("aarch64-cntvct"@, true), os_clock("std-instant"@, true)]
        },
        TargetArch::Riscv64 => counter_and_fallback("riscv64-rdcycle"@, os),
        TargetArch::Powerpc64 => counter_and_fallback("powerpc64-mftb"@, os),
        TargetArch::S390x => counter_and_fallback("s390x-stckf"@, os),
        TargetArch::Loongarch64 => counter_and_fallback("loongarch64-rdtime"@, os),
        _ => if os == TargetOs::MacOs {
            seq![os_clock("macos-mach"@, true)]
        } else if is_unix(os) {
            seq![os_clock("unix-monotonic"@, true)]
        } else {
            seq![os_clock("std-instant"@, true)]
        },
    }
}

impl ClockCandidate {
    /// A hardware counter read without preparation.
    pub fn hardware(name: &'static str, selected_by_hotclock: bool) -> (c: Self)
        ensures
            candidate_view(c) == hw(name@, selected_by_hotclock),
    {
        ClockCandidate {
            name,
            kind: ClockCandidateKind::Hardware,
            selected_by_hotclock,
            has_prepare: false,
            requires_child_process: false,
        }
    }

    /// A hardware counter that needs a preparation step before its timed reads.
    pub fn prepared_hardware(name: &'static str, selected_by_hotclock: bool) -> (c: Self)
        ensures
            candidate_view(c) == prepared_hw(name@, selected_by_hotclock),
    {
        ClockCandidate {
            name,
            kind: ClockCandidateKind::Hardware,
            selected_by_hotclock,
            has_prepare: true,
            requires_child_process: false,
        }
    }

    /// A hardware counter that may fault, measured only in a crash-isolated child.
    pub fn crash_isolated_hardware(name: &'static str, selected_by_hotclock: bool) -> (c: Self)
        ensures
            candidate_view(c) == isolated_hw(name@, selected_by_hotclock),
    {
        ClockCandidate {
            name,
            kind: ClockCandidateKind::Hardware,
            selected_by_hotclock,
            has_prepare: false,
            requires_child_process: true,
        }
    }

    /// An operating-system timer.
    pub fn os_fallback(name: &'static str, selected_by_hotclock: bool) -> (c: Self)
        ensures
            candidate_view(c) == os_clock(name@, selected_by_hotclock),
    {
        ClockCandidate {
            name,
            kind: ClockCandidateKind::OsFallback,
            selected_by_hotclock,
            has_prepare: false,
            requires_child_process: false,
        }
    }
}

fn push_linux_clock_variants(out: &mut Vec<ClockCandidate>, gnu: bool)
    ensures
        final(out)@.map_values(|c: ClockCandidate| candidate_view(c)) == old(out)@.map_values(
            |c: ClockCandidate| candidate_view(c),
        ) + linux_clock_variants(gnu),
{
    out.push(ClockCandidate::os_fallback("unix-monotonic-raw", false));
    out.push(ClockCandidate::os_fallback("linux-boottime", false));
    out.push(ClockCandidate::os_fallback("linux-syscall-monotonic", false));
    out.push(ClockCandidate::os_fallback("linux-syscall-monotonic-raw", false));
    if gnu {
        out.push(ClockCandidate::os_fallback("linux-vdso-monotonic", false));
        out.push(ClockCandidate::os_fallback("linux-vdso-monotonic-raw", false));
    }
    assert(final(out)@.map_values(|c: ClockCandidate| candidate_view(c)) =~= old(out)@.map_values(
        |c: ClockCandidate| candidate_view(c),
    ) + linux_clock_variants(gnu));
}

fn counter_and_fallback_clocks(name: &'static str, os: TargetOs) -> (r: Vec<ClockCandidate>)
    ensures
        r@.map_values(|c: ClockCandidate| candidate_view(c)) == counter_and_fallback(name@, os),
{
    let mut r = Vec::new();
    r.push(ClockCandidate::hardware(name, true));
    if unix(os) {
        r.push(ClockCandidate::os_fallback("unix-monotonic", true));
    } else {
        r.push(ClockCandidate::os_fallback("std-instant", true));
    }
    assert(r@.map_values(|c: ClockCandidate| candidate_view(c)) =~= counter_and_fallback(name@, os));
    r
}

/// The clock candidates measured on `target`.
pub fn candidate_clocks(target: Target) -> (r: Vec<ClockCandidate>)
    ensures
        r@.map_values(|c: ClockCandidate| candidate_view(c)) == candidate_clocks_spec(target),
{
    let os = target.os;
    let mut r: Vec<ClockCandidate> = Vec::new();
    match target.arch {
        TargetArch::X86_64 => {
            if os == TargetOs::MacOs {
                r.push(ClockCandidate::hardware("x86_64-rdtsc", true));
                r.push(ClockCandidate::os_fallback("macos-mach", true));
            } else if unix(os) {
                r.push(ClockCandidate::hardware("x86_64-rdpmc-fixed-core-cycles", false));
                r.push(ClockCandidate::prepared_hardware("x86_64-rdpmc-fixed-core-cycles-raw", false));
                r.push(ClockCandidate::crash_isolated_hardware("x86_64-rdpmc-fixed-core-cycles-blind", false));
                r.push(ClockCandidate::hardware("x86_64-perf-rdpmc-cpu-cycles", false));
                r.push(ClockCandidate::hardware("x86_64-rdtsc", true));
                r.push(ClockCandidate::hardware("x86_64-rdtscp", false));
                r.push(ClockCandidate::hardware("x86_64-lfence-rdtsc", false));
                r.push(ClockCandidate::os_fallback("unix-monotonic", true));
                push_linux_clock_variants(&mut r, target.gnu_env);
            } else {
                r.push(ClockCandidate::hardware("x86_64-rdtsc", true));
                r.push(ClockCandidate::os_fallback("std-instant", true));
            }
        },
        TargetArch::X86 => {
            if os == TargetOs::MacOs {
                r.push(ClockCandidate::hardware("x86-rdtsc", true));
                r.push(ClockCandidate::os_fallback("macos-mach", true));
            } else if unix(os) {
                r.push(ClockCandidate::crash_isolated_hardware("x86-rdpmc-fixed-core-cycles-blind", false));
                r.push(ClockCandidate::hardware("x86-rdtsc", true));
                r.push(ClockCandidate::hardware("x86-rdtscp", false));
                r.push(ClockCandidate::hardware("x86-lfence-rdtsc", false));
                r.push(ClockCandidate::os_fallback("unix-monotonic", true));
                push_linux_clock_variants(&mut r, target.gnu_env);
            } else {
                r.push(ClockCandidate::hardware("x86-rdtsc", true));
                r.push(ClockCandidate::os_fallback("std-instant", true));
            }
        },
        TargetArch::Aarch64 => {
            if os == TargetOs::Linux {
                r.push(ClockCandidate::crash_isolated_hardware("aarch64-pmccntr-el0-blind", false));
                r.push(ClockCandidate::hardware("aarch64-cntvct", true));
                r.push(ClockCandidate::os_fallback("unix-monotonic", true));
                push_linux_clock_variants(&mut r, target.gnu_env);
            } else if os == TargetOs::MacOs {
                r.push(ClockCandidate::hardware("aarch64-cntvct", true));
                r.push(ClockCandidate::os_fallback("macos-mach", false));
            } else {
                r.push(ClockCandidate::hardware("aarch64-cntvct", true));
                r.push(ClockCandidate::os_fallback("std-instant", true));
            }
        },
        TargetArch::Riscv64 => {
            r = counter_and_fallback_clocks("riscv64-rdcycle", os);
        },
        TargetArch::Powerpc64 => {
            r = counter_and_fallback_clocks("powerpc64-mftb", os);
        },
        TargetArch::S390x => {
            r = counter_and_fallback_clocks("s390x-stckf", os);
        },
        TargetArch::Loongarch64 => {
            r = counter_and_fallback_clocks("loongarch64-rdtime", os);
        },
        _ => {
            if os == TargetOs::MacOs {
                r.push(ClockCandidate::os_fallback("macos-mach", true));
            } else if unix(os) {
                r.push(ClockCandidate::os_fallback("unix-monotonic", true));
            } else {
                r.push(ClockCandidate::os_fallback("std-instant", true));
            }
        },
    }
    assert(r@.map_values(|c: ClockCandidate| candidate_view(c)) =~= candidate_clocks_spec(target));
    r
}

} // verus!
