//! The decisions of the selection-validation report: which clock primitives a target can
//! offer, the order in which benchmark cases are interleaved, which samples summarize a
//! sorted timing series, and how the report's verdict fields are worded.

use vstd::prelude::*;
use vstd::string::*;

use crate::target::{Target, TargetArch, TargetOs};
use crate::text::{decimal, push_decimal};
use crate::textual::{chars_of, same_chars, string_of, trim_bounds, trimmed};

verus! {

/// A clock primitive that the report benchmarks on its own.
#[derive(Clone, Copy, Debug, PartialEq, Eq, Hash, Structural)]
pub enum PrimitiveKind {
    Rdtsc,
    Rdtscp,
    DirectRdpmc,
    PerfRdpmc,
    CntvctEl0,
    CntpctEl0,
    PmccntrDirect,
    PmccntrPerf,
    MachAbs,
    MachCont,
    ClockMonotonic,
    ClockMonotonicRaw,
    ClockBoottime,
    Qpc,
}

/// The report field that holds a primitive's result.
pub open spec fn field_name_of(kind: PrimitiveKind) -> Seq<char> {
    match kind {
        PrimitiveKind::Rdtsc => "rdtsc-bench"@,
        PrimitiveKind::Rdtscp => "rdtscp-bench"@,
        PrimitiveKind::DirectRdpmc => "direct-rdpmc-bench"@,
        PrimitiveKind::PerfRdpmc => "perf-rdpmc-bench"@,
        PrimitiveKind::CntvctEl0 => "cntvct-el0-bench"@,
        PrimitiveKind::CntpctEl0 => "cntpct-el0-bench"@,
        PrimitiveKind::PmccntrDirect => "pmccntr-direct-bench"@,
        PrimitiveKind::PmccntrPerf => "pmccntr-perf-bench"@,
        PrimitiveKind::MachAbs => "mach-abs-bench"@,
        PrimitiveKind::MachCont => "mach-cont-bench"@,
        PrimitiveKind::ClockMonotonic => "clock-monotonic-bench"@,
        PrimitiveKind::ClockMonotonicRaw => "clock-monotonic-raw-bench"@,
        PrimitiveKind::ClockBoottime => "clock-boottime-bench"@,
        PrimitiveKind::Qpc => "qpc-bench"@,
    }
}

impl PrimitiveKind {
    /// The report field that holds this primitive's result.
    pub fn field_name(self) -> (s: &'static str)
        ensures
            s@ == field_name_of(self),
    {
        match self {
            PrimitiveKind::Rdtsc => "rdtsc-bench",
            PrimitiveKind::Rdtscp => "rdtscp-bench",
            PrimitiveKind::DirectRdpmc => "direct-rdpmc-bench",
            PrimitiveKind::PerfRdpmc => "perf-rdpmc-bench",
            PrimitiveKind::CntvctEl0 => "cntvct-el0-bench",
            PrimitiveKind::CntpctEl0 => "cntpct-el0-bench",
            PrimitiveKind::PmccntrDirect => "pmccntr-direct-bench",
            PrimitiveKind::PmccntrPerf => "pmccntr-perf-bench",
            PrimitiveKind::MachAbs => "mach-abs-bench",
            PrimitiveKind::MachCont => "mach-cont-bench",
            PrimitiveKind::ClockMonotonic => "clock-monotonic-bench",
            PrimitiveKind::ClockMonotonicRaw => "clock-monotonic-raw-bench",
            PrimitiveKind::ClockBoottime => "clock-boottime-bench",
            PrimitiveKind::Qpc => "qpc-bench",
        }
    }
}

/// The primitives that can exist on `target`, in the report's column order: the x86
/// time-stamp reads (and, on Linux, the two `rdpmc` forms), the aarch64 generic-timer reads
/// (and, on Linux, the two PMU cycle-counter forms), then the operating-system clocks.
pub open spec fn applicable_primitives_spec(target: Target) -> Seq<PrimitiveKind> {
    let linux = target.os == TargetOs::Linux;
    let x86 = if target.arch == TargetArch::X86 || target.arch == TargetArch::X86_64 {
        seq![PrimitiveKind::Rdtsc, PrimitiveKind::Rdtscp] + if linux {
            seq![PrimitiveKind::DirectRdpmc, PrimitiveKind::PerfRdpmc]
        } else {
            Seq::empty()
        }
    } else {
        Seq::empty()
    };
    let arm = if target.arch == TargetArch::Aarch64 {
        seq![PrimitiveKind::CntvctEl0, PrimitiveKind::CntpctEl0] + if linux {
            seq![PrimitiveKind::PmccntrDirect, PrimitiveKind::PmccntrPerf]
        } else {
            Seq::empty()
        }
    } else {
        Seq::empty()
    };
    let mac = if target.os == TargetOs::MacOs {
        seq![PrimitiveKind::MachAbs, PrimitiveKind::MachCont]
    } else {
        Seq::empty()
    };
    let lin = if linux {
        seq![PrimitiveKind::ClockMonotonic, PrimitiveKind::ClockMonotonicRaw, PrimitiveKind::ClockBoottime]
    } else {
        Seq::empty()
    };
    let win = if target.os == TargetOs::Windows {
        seq![PrimitiveKind::Qpc]
    } else {
        Seq::empty()
    };
    x86 + arm + mac + lin + win
}

/// The primitives that can exist on `target`, in column order.
pub fn applicable_primitives(target: Target) -> (out: Vec<PrimitiveKind>)
    ensures
        out@ == applicable_primitives_spec(target),
{
    let linux = target.os == TargetOs::Linux;
    let mut out: Vec<PrimitiveKind> = Vec::new();
    if target.arch == TargetArch::X86 || target.arch == TargetArch::X86_64 {
        out.push(PrimitiveKind::Rdtsc);
        out.push(PrimitiveKind::Rdtscp);
        if linux {
            out.push(PrimitiveKind::DirectRdpmc);
            out.push(PrimitiveKind::PerfRdpmc);
        }
    }
    if target.arch == TargetArch::Aarch64 {
        out.push(PrimitiveKind::CntvctEl0);
        out.push(PrimitiveKind::CntpctEl0);
        if linux {
            out.push(PrimitiveKind::PmccntrDirect);
            out.push(PrimitiveKind::PmccntrPerf);
        }
    }
    if target.os == TargetOs::MacOs {
        out.push(PrimitiveKind::MachAbs);
        out.push(PrimitiveKind::MachCont);
    }
    if linux {
        out.push(PrimitiveKind::ClockMonotonic);
        out.push(PrimitiveKind::ClockMonotonicRaw);
        out.push(PrimitiveKind::ClockBoottime);
    }
    if target.os == TargetOs::Windows {
        out.push(PrimitiveKind::Qpc);
    }
    assert(out@ =~= applicable_primitives_spec(target));
    out
}

/// Why a primitive was not benchmarked.
#[derive(Clone, Copy, Debug, PartialEq, Eq, Structural)]
pub enum UnavailCategory {
    /// The primitive does not exist on this architecture or operating system.
    NotApplicable,
    /// The primitive exists but kernel policy blocks user access to it.
    Kernel,
    /// The kernel exposes the primitive but the hypervisor or container strips it or makes it
    /// pathologically slow.
    Host,
}

/// A reason for not benchmarking a primitive, with its detail text.
#[derive(Clone, Debug)]
pub struct UnavailReason {
    pub category: UnavailCategory,
    pub detail: String,
}

/// The report cell for an unavailable primitive.
pub open spec fn unavailable_text(category: UnavailCategory, detail: Seq<char>) -> Seq<char> {
    match category {
        UnavailCategory::NotApplicable => "unavailable: not applicable"@,
        UnavailCategory::Kernel => "unavailable: kernel: "@ + detail,
        UnavailCategory::Host => "unavailable: host: "@ + detail,
    }
}

/// The report cell for an unavailable primitive.
pub fn format_unavail(reason: &UnavailReason) -> (s: String)
    ensures
        s@ == unavailable_text(reason.category, reason.detail@),
{
    let mut s = String::new();
    match reason.category {
        UnavailCategory::NotApplicable => {
            s.append("unavailable: not applicable");
        },
        UnavailCategory::Kernel => {
            s.append("unavailable: kernel: ");
            s.append(reason.detail.as_str());
        },
        UnavailCategory::Host => {
            s.append("unavailable: host: ");
            s.append(reason.detail.as_str());
        },
    }
    s
}

/// `yes` or `no`.
pub fn yes_no(value: bool) -> (s: &'static str)
    ensures
        s@ == (if value { "yes"@ } else { "no"@ }),
{
    if value {
        "yes"
    } else {
        "no"
    }
}

/// Whether the selected clocks matched the expected ones, and whether the run passes.
#[derive(Clone, Copy, Debug, PartialEq, Eq, Structural)]
pub struct Verdict {
    /// Both expected clocks were given.
    pub expected_set: bool,
    /// Both were given and both selections match them.
    pub matches_expected: bool,
    /// The run passes: expectations are not enforced, or they were given and matched.
    pub ok: bool,
}

/// The placeholder for an expected clock that was not given.
pub open spec fn unset() -> Seq<char> {
    "unset"@
}

/// The verdict on selections `selected_instant` / `selected_cycles` against the expected
/// clocks (`"unset"` where none was given), under `enforce`.
pub open spec fn verdict_spec(
    expected_instant: Seq<char>,
    expected_cycles: Seq<char>,
    selected_instant: Seq<char>,
    selected_cycles: Seq<char>,
    enforce: bool,
) -> Verdict {
    let expected_set = expected_instant != unset() && expected_cycles != unset();
    let matches_expected = expected_set && expected_instant == selected_instant && expected_cycles
        == selected_cycles;
    Verdict { expected_set, matches_expected, ok: !enforce || (expected_set && matches_expected) }
}

/// The verdict of a run.
pub fn verdict(
    expected_instant: &str,
    expected_cycles: &str,
    selected_instant: &str,
    selected_cycles: &str,
    enforce: bool,
) -> (v: Verdict)
    ensures
        v == verdict_spec(expected_instant@, expected_cycles@, selected_instant@, selected_cycles@, enforce),
{
    let expected_set = !same_chars(expected_instant, "unset") && !same_chars(expected_cycles, "unset");
    let matches_expected = expected_set && same_chars(expected_instant, selected_instant) && same_chars(
        expected_cycles,
        selected_cycles,
    );
    Verdict { expected_set, matches_expected, ok: !enforce || (expected_set && matches_expected) }
}

/// The `matches-expected` cell: `unchecked` without expectations, else `yes` or `no`.
pub fn expected_status(expected_set: bool, matches_expected: bool) -> (s: &'static str)
    ensures
        s@ == (if !expected_set {
            "unchecked"@
        } else if matches_expected {
            "yes"@
        } else {
            "no"@
        }),
{
    if !expected_set {
        "unchecked"
    } else if matches_expected {
        "yes"
    } else {
        "no"
    }
}

/// The positions of the minimum, 25th percentile, median, 75th percentile, 95th percentile
/// and maximum in a sorted series of `count` samples.
pub open spec fn stat_positions_spec(count: nat) -> Seq<int> {
    let last = count - 1;
    seq![0, last / 4, last / 2, (last * 3) / 4, (last * 95) / 100, last]
}

/// The positions of the summary statistics in a sorted series of `count` samples.
pub fn stat_positions(count: usize) -> (p: [usize; 6])
    requires
        count >= 1,
    ensures
        p@.map_values(|x: usize| x as int) == stat_positions_spec(count as nat),
        forall|i: int| 0 <= i < 6 ==> #[trigger] p@[i] < count,
{
    let last = count - 1;
    proof {
        assert((last as int * 95) / 100 <= last) by (nonlinear_arith)
            requires
                last >= 0,
        ;
        assert((last as int * 3) / 4 <= last) by (nonlinear_arith)
            requires
                last >= 0,
        ;
    }
    let p95 = if last <= usize::MAX / 95 {
        (last * 95) / 100
    } else {
        ((last as u128 * 95) / 100) as usize
    };
    let p75 = if last <= usize::MAX / 3 {
        (last * 3) / 4
    } else {
        ((last as u128 * 3) / 4) as usize
    };
    let p = [0, last / 4, last / 2, p75, p95, last];
    assert(p@.map_values(|x: usize| x as int) =~= stat_positions_spec(count as nat));
    p
}

/// The case run at `step` of sample `sample` among `count` interleaved cases: each sample
/// starts one case later than the previous one and then runs all cases in rotation.
pub open spec fn interleaved_case(sample: nat, step: nat, count: nat) -> nat {
    ((sample % count) + step) % count
}

/// The order in which sample `sample` runs the `count` benchmark cases.
pub fn interleaved_order(sample: usize, count: usize) -> (order: Vec<usize>)
    requires
        count >= 1,
    ensures
        order.len() == count,
        forall|step: int| 0 <= step < count ==> #[trigger] order@[step] == interleaved_case(
            sample as nat,
            step as nat,
            count as nat,
        ),
{
    let offset = sample % count;
    let mut order: Vec<usize> = Vec::new();
    let mut step: usize = 0;
    while step < count
        invariant
            count >= 1,
            offset == sample % count,
            step <= count,
            order.len() == step,
            forall|k: int| 0 <= k < step ==> #[trigger] order@[k] == interleaved_case(
                sample as nat,
                k as nat,
                count as nat,
            ),
        decreases count - step,
    {
        let case = ((offset as u128 + step as u128) % (count as u128)) as usize;
        order.push(case);
        step = step + 1;
    }
    order
}

/// Every sample runs every case exactly once: the rotation is a permutation of the cases.
pub proof fn lemma_interleaving_runs_each_case_once(sample: nat, count: nat, case: nat)
    requires
        count >= 1,
        case < count,
    ensures
        exists|step: nat| step < count && #[trigger] interleaved_case(sample, step, count) == case,
        forall|s1: nat, s2: nat|
            s1 < count && s2 < count && #[trigger] interleaved_case(sample, s1, count)
                == #[trigger] interleaved_case(sample, s2, count) ==> s1 == s2,
{
    let offset = sample % count;
    let step: nat = ((case + count - offset) as nat) % count;
    assert(interleaved_case(sample, step, count) == case) by {
        vstd::arithmetic::div_mod::lemma_add_mod_noop_right(offset as int, (case + count - offset) as int, count as int);
        vstd::arithmetic::div_mod::lemma_mod_add_multiples_vanish(case as int, count as int);
        vstd::arithmetic::div_mod::lemma_small_mod(case, count);
    }
    assert forall|s1: nat, s2: nat|
        s1 < count && s2 < count && #[trigger] interleaved_case(sample, s1, count)
            == #[trigger] interleaved_case(sample, s2, count) implies s1 == s2 by {
        lemma_rotation_injective(offset, s1, s2, count);
    }
}

proof fn lemma_rotation_injective(offset: nat, s1: nat, s2: nat, count: nat)
    requires
        offset < count,
        s1 < count,
        s2 < count,
        (offset + s1) % count == (offset + s2) % count,
    ensures
        s1 == s2,
{
    let a = offset + s1;
    let b = offset + s2;
    if a < count {
        vstd::arithmetic::div_mod::lemma_small_mod(a as nat, count);
    } else {
        vstd::arithmetic::div_mod::lemma_mod_add_multiples_vanish(a - count, count as int);
        vstd::arithmetic::div_mod::lemma_small_mod((a - count) as nat, count);
    }
    if b < count {
        vstd::arithmetic::div_mod::lemma_small_mod(b as nat, count);
    } else {
        vstd::arithmetic::div_mod::lemma_mod_add_multiples_vanish(b - count, count as int);
        vstd::arithmetic::div_mod::lemma_small_mod((b - count) as nat, count);
    }
}

/// The target label `{arch}-{os}-{env}-{bits}bit`.
pub open spec fn target_label_text(arch: Seq<char>, os: Seq<char>, env: Seq<char>, bits: nat) -> Seq<char> {
    arch + "-"@ + os + "-"@ + env + "-"@ + decimal(bits) + "bit"@
}

/// The label of the target the report ran on.
pub fn target_label(arch: &str, os: &str, env: &str, pointer_bits: u32) -> (s: String)
    ensures
        s@ == target_label_text(arch@, os@, env@, pointer_bits as nat),
{
    let mut s = String::new();
    s.append(arch);
    s.append("-");
    s.append(os);
    s.append("-");
    s.append(env);
    s.append("-");
    push_decimal(&mut s, pointer_bits as u64);
    s.append("bit");
    s
}

/// The Linux environment label: `aws-lambda` inside a function runtime, else the machine's
/// product name (without surrounding white space) when it has one, else `container` inside a
/// container, else `linux`.
pub open spec fn linux_environment_text(in_function_runtime: bool, product_name: Option<Seq<char>>, in_container: bool) -> Seq<char> {
    if in_function_runtime {
        "aws-lambda"@
    } else if product_name is Some && trimmed(product_name->0).len() > 0 {
        trimmed(product_name->0)
    } else if in_container {
        "container"@
    } else {
        "linux"@
    }
}

/// The Linux environment label from what the host shows: whether a function runtime is
/// configured, the contents of the product-name file if it could be read, and whether the
/// container marker exists.
pub fn linux_environment_label(in_function_runtime: bool, product_name: Option<&str>, in_container: bool) -> (s: String)
    ensures
        s@ == linux_environment_text(in_function_runtime, match product_name {
            Some(p) => Some(p@),
            None => None,
        }, in_container),
{
    let mut s = String::new();
    if in_function_runtime {
        s.append("aws-lambda");
        return s;
    }
    match product_name {
        Some(p) => {
            let chars = chars_of(p);
            let (start, end) = trim_bounds(&chars, 0, chars.len());
            assert(chars@.subrange(0, chars.len() as int) =~= p@);
            if start < end {
                return string_of(&chars, start, end);
            }
        },
        None => {},
    }
    if in_container {
        s.append("container");
    } else {
        s.append("linux");
    }
    s
}

} // verus!
