//! Choosing the `Cycles` counter: the fastest candidate that passes every check.
//!
//! The wall-clock fallback is always the last candidate, so when nothing else qualifies the
//! selection still yields a counter.

use vstd::prelude::*;

use crate::counter_eval::non_decreasing;
use crate::stub::Arch;
use crate::indices;
use crate::sources::{cycle_source, target_arch_of, CounterSource};
use crate::target::{Target, TargetOs};

verus! {

/// How one candidate fared in the selection stages.
#[derive(Clone, Copy, Debug, PartialEq, Eq)]
pub struct CandidateReport {
    /// Index that names the counter once selected.
    pub index: u8,
    /// Name reported for the counter.
    pub name: &'static str,
    /// Its preparation step succeeded.
    pub prepared: bool,
    /// Two reads completed without faulting.
    pub works: bool,
    /// Its readings never went backwards and moved on one thread.
    pub local_monotonic: bool,
    /// Best measured time for a batch of reads, if the measurement completed.
    pub latency: Option<u128>,
}

/// The candidate passed every stage and has a latency.
pub open spec fn usable(c: CandidateReport) -> bool {
    c.prepared && c.works && c.local_monotonic && c.latency is Some
}

/// Among the first `n` candidates, the position of the first usable one with the lowest latency.
pub open spec fn best_position(cs: Seq<CandidateReport>, n: int) -> Option<int>
    decreases n,
{
    if n <= 0 {
        None
    } else {
        let prev = best_position(cs, n - 1);
        let c = cs[n - 1];
        if usable(c) && (prev matches Some(p) ==> c.latency->0 < cs[p].latency->0) {
            Some(n - 1)
        } else {
            prev
        }
    }
}

/// Selects the `Cycles` counter: the first usable candidate with the lowest latency, or the last
/// candidate (the wall-clock fallback) when none is usable.
pub fn select_best_cycles(candidates: &[CandidateReport]) -> (r: (u8, &'static str))
    requires
        candidates.len() > 0,
    ensures
        ({
            let chosen = match best_position(candidates@, candidates.len() as int) {
                Some(p) => candidates@[p],
                None => candidates@[candidates.len() - 1],
            };
            r.0 == chosen.index && r.1 == chosen.name
        }),
{
    let mut best: Option<usize> = None;
    let mut i: usize = 0;
    while i < candidates.len()
        invariant
            i <= candidates.len(),
            match best {
                Some(b) => best_position(candidates@, i as int) == Some(b as int),
                None => best_position(candidates@, i as int) is None,
            },
            best matches Some(b) ==> b < i && candidates@[b as int].latency is Some,
        decreases candidates.len() - i,
    {
        let c = candidates[i];
        if c.prepared && c.works && c.local_monotonic {
            match c.latency {
                Some(latency) => {
                    match best {
                        None => best = Some(i),
                        Some(b) => {
                            let best_latency = match candidates[b].latency {
                                Some(l) => l,
                                None => 0,
                            };
                            if latency < best_latency {
                                best = Some(i);
                            }
                        },
                    }
                },
                None => {},
            }
        }
        i = i + 1;
    }
    match best {
        Some(b) => (candidates[b].index, candidates[b].name),
        None => {
            let last = candidates.len() - 1;
            (candidates[last].index, candidates[last].name)
        },
    }
}

/// The selection is the fastest: the chosen candidate is usable and no usable candidate has a
/// lower latency.
pub proof fn lemma_selection_is_fastest(cs: Seq<CandidateReport>, n: int)
    requires
        0 <= n <= cs.len(),
    ensures
        best_position(cs, n) matches Some(p) ==> 0 <= p < n && usable(cs[p]) && (forall|k: int|
            0 <= k < n && usable(#[trigger] cs[k]) ==> cs[p].latency->0 <= cs[k].latency->0),
        best_position(cs, n) is None ==> forall|k: int| 0 <= k < n ==> !usable(#[trigger] cs[k]),
    decreases n,
{
    if n > 0 {
        lemma_selection_is_fastest(cs, n - 1);
    }
}

/// On Linux x86_64 and aarch64 the `Cycles` candidates include the `Instant` counter (index 0,
/// the time-stamp counter or `CNTVCT_EL0`) and end with the wall-clock fallback.
pub proof fn lemma_cycle_candidates_include_instant_counter(arch: Arch)
    requires
        arch == Arch::X86_64 || arch == Arch::Aarch64,
    ensures
        exists|k: int| 0 <= k < cycle_candidates_spec(arch).len() && (#[trigger] cycle_candidates_spec(arch)[k]).1 == 0,
        cycle_candidates_spec(arch).last().1 == indices::CLOCK_MONOTONIC,
{
    if arch == Arch::X86_64 {
        assert(cycle_candidates_spec(arch)[2].1 == 0);
    } else {
        assert(cycle_candidates_spec(arch)[1].1 == 0);
    }
}

/// `Cycles` reads no slower than `Instant`: whenever the `Instant` counter's candidate (any
/// usable candidate, in fact) passed every check, a usable candidate is selected and its
/// measured latency is at most that candidate's.
pub proof fn lemma_cycles_not_slower_than_instant(reports: Seq<CandidateReport>, k: int)
    requires
        0 <= k < reports.len(),
        usable(reports[k]),
    ensures
        best_position(reports, reports.len() as int) matches Some(p) && usable(reports[p])
            && reports[p].latency->0 <= reports[k].latency->0,
{
    lemma_selection_is_fastest(reports, reports.len() as int);
}

/// A counter passes the single-thread check when its `readings` never go backwards and it
/// advanced at least once.
pub fn test_local_monotonic(readings: &[u64]) -> (r: bool)
    requires
        readings.len() >= 1,
    ensures
        r == (non_decreasing(readings@) && readings@[0] < readings@[readings.len() - 1]),
{
    let mut previous = readings[0];
    let mut advanced = false;
    let mut i: usize = 1;
    while i < readings.len()
        invariant
            1 <= i <= readings.len(),
            previous == readings@[i - 1],
            forall|a: int, b: int| 0 <= a <= b < i ==> readings@[a] <= readings@[b],
            advanced == (readings@[0] < readings@[i - 1]),
        decreases readings.len() - i,
    {
        let current = readings[i];
        if current < previous {
            return false;
        }
        advanced = advanced || current > previous;
        previous = current;
        i = i + 1;
    }
    advanced
}

/// A counter that `Cycles` may select: its name, its index, and whether it needs a preparation
/// step before its first read.
#[derive(Clone, Copy, Debug, PartialEq, Eq)]
pub struct CycleCandidate {
    pub name: &'static str,
    pub index: u8,
    pub needs_preparation: bool,
}

/// The name, index and preparation flag of a candidate.
pub open spec fn candidate_view(c: CycleCandidate) -> (Seq<char>, u8, bool) {
    (c.name@, c.index, c.needs_preparation)
}

/// The `Cycles` candidates on `arch` under Linux, fastest-hoped first, the wall-clock fallback last.
pub open spec fn cycle_candidates_spec(arch: Arch) -> Seq<(Seq<char>, u8, bool)> {
    match arch {
        Arch::X86_64 => seq![
            ("x86_64-direct-rdpmc"@, indices::DIRECT_RDPMC, true),
            ("x86_64-perf-rdpmc"@, indices::PERF_RDPMC, true),
            ("x86_64-rdtsc"@, indices::RDTSC, false),
            ("unix-monotonic"@, indices::CLOCK_MONOTONIC, false),
        ],
        Arch::Aarch64 => seq![
            ("aarch64-perf-pmccntr"@, indices::PERF_PMCCNTR, true),
            ("aarch64-cntvct"@, indices::CNTVCT, false),
            ("unix-monotonic"@, indices::CLOCK_MONOTONIC, false),
        ],
        _ => Seq::empty(),
    }
}

/// The `Cycles` candidates on `arch` under Linux; empty where `Cycles` has a single counter.
pub fn cycle_candidates(arch: Arch) -> (r: Vec<CycleCandidate>)
    ensures
        r@.map_values(|c: CycleCandidate| candidate_view(c)) == cycle_candidates_spec(arch),
{
    let mut r = Vec::new();
    match arch {
        Arch::X86_64 => {
            r.push(CycleCandidate { name: "x86_64-direct-rdpmc", index: indices::DIRECT_RDPMC, needs_preparation: true });
            r.push(CycleCandidate { name: "x86_64-perf-rdpmc", index: indices::PERF_RDPMC, needs_preparation: true });
            r.push(CycleCandidate { name: "x86_64-rdtsc", index: indices::RDTSC, needs_preparation: false });
            r.push(CycleCandidate { name: "unix-monotonic", index: indices::CLOCK_MONOTONIC, needs_preparation: false });
        },
        Arch::Aarch64 => {
            r.push(CycleCandidate { name: "aarch64-perf-pmccntr", index: indices::PERF_PMCCNTR, needs_preparation: true });
            r.push(CycleCandidate { name: "aarch64-cntvct", index: indices::CNTVCT, needs_preparation: false });
            r.push(CycleCandidate { name: "unix-monotonic", index: indices::CLOCK_MONOTONIC, needs_preparation: false });
        },
        _ => {},
    }
    assert(r@.map_values(|c: CycleCandidate| candidate_view(c)) =~= cycle_candidates_spec(arch));
    r
}

/// The counter a candidate name denotes.
pub open spec fn counter_named(name: Seq<char>) -> Option<CounterSource> {
    if name == "x86_64-direct-rdpmc"@ {
        Some(CounterSource::DirectRdpmc)
    } else if name == "x86_64-perf-rdpmc"@ {
        Some(CounterSource::PerfRdpmc)
    } else if name == "x86_64-rdtsc"@ {
        Some(CounterSource::Rdtsc)
    } else if name == "aarch64-perf-pmccntr"@ {
        Some(CounterSource::PerfPmccntr)
    } else if name == "aarch64-cntvct"@ {
        Some(CounterSource::Cntvct)
    } else if name == "unix-monotonic"@ {
        Some(CounterSource::ClockMonotonic)
    } else {
        None
    }
}

/// Publishing a candidate's index makes `Cycles` read the counter the candidate is named for:
/// the candidates' indices are pairwise distinct, and each one decodes on its Linux target to
/// the counter its name denotes.
pub proof fn lemma_cycle_candidates_name_their_counters(arch: Arch, gnu_env: bool)
    ensures
        forall|i: int, j: int|
            0 <= i < j < cycle_candidates_spec(arch).len() ==> #[trigger] cycle_candidates_spec(arch)[i].1
                != #[trigger] cycle_candidates_spec(arch)[j].1,
        forall|i: int|
            0 <= i < cycle_candidates_spec(arch).len() ==> counter_named(#[trigger] cycle_candidates_spec(arch)[i].0)
                is Some && cycle_source(
                Target { arch: target_arch_of(arch), os: TargetOs::Linux, gnu_env },
                cycle_candidates_spec(arch)[i].1,
            ) == counter_named(cycle_candidates_spec(arch)[i].0),
{
    let t = Target { arch: target_arch_of(arch), os: TargetOs::Linux, gnu_env };
    let cs = cycle_candidates_spec(arch);
    assert forall|i: int| 0 <= i < cs.len() implies counter_named(#[trigger] cs[i].0) is Some && cycle_source(t, cs[i].1)
        == counter_named(cs[i].0) by {
        reveal_strlit("x86_64-direct-rdpmc");
        reveal_strlit("x86_64-perf-rdpmc");
        reveal_strlit("x86_64-rdtsc");
        reveal_strlit("aarch64-perf-pmccntr");
        reveal_strlit("aarch64-cntvct");
        reveal_strlit("unix-monotonic");
        assert("x86_64-direct-rdpmc"@.len() == 19);
        assert("x86_64-perf-rdpmc"@.len() == 17);
        assert("x86_64-rdtsc"@.len() == 12);
        assert("aarch64-perf-pmccntr"@.len() == 20);
        assert("aarch64-cntvct"@.len() == 14);
        assert("unix-monotonic"@.len() == 14);
        assert("unix-monotonic"@[0] != "aarch64-cntvct"@[0]);
        if arch == Arch::X86_64 {
            if i == 0 {
                assert(counter_named(cs[i].0) == Some(CounterSource::DirectRdpmc));
            } else if i == 1 {
                assert("x86_64-perf-rdpmc"@ != "x86_64-direct-rdpmc"@);
                assert(counter_named(cs[i].0) == Some(CounterSource::PerfRdpmc));
            } else if i == 2 {
                assert("x86_64-rdtsc"@ != "x86_64-direct-rdpmc"@);
                assert("x86_64-rdtsc"@ != "x86_64-perf-rdpmc"@);
                assert(counter_named(cs[i].0) == Some(CounterSource::Rdtsc));
            } else {
                assert("unix-monotonic"@ != "x86_64-direct-rdpmc"@);
                assert("unix-monotonic"@ != "x86_64-perf-rdpmc"@);
                assert("unix-monotonic"@ != "x86_64-rdtsc"@);
                assert("unix-monotonic"@ != "aarch64-perf-pmccntr"@);
                assert("unix-monotonic"@ != "aarch64-cntvct"@);
                assert(counter_named(cs[i].0) == Some(CounterSource::ClockMonotonic));
            }
        } else if arch == Arch::Aarch64 {
            if i == 0 {
                assert("aarch64-perf-pmccntr"@ != "x86_64-direct-rdpmc"@);
                assert("aarch64-perf-pmccntr"@ != "x86_64-perf-rdpmc"@);
                assert("aarch64-perf-pmccntr"@ != "x86_64-rdtsc"@);
                assert(counter_named(cs[i].0) == Some(CounterSource::PerfPmccntr));
            } else if i == 1 {
                assert("aarch64-cntvct"@ != "x86_64-direct-rdpmc"@);
                assert("aarch64-cntvct"@ != "x86_64-perf-rdpmc"@);
                assert("aarch64-cntvct"@ != "x86_64-rdtsc"@);
                assert("aarch64-cntvct"@ != "aarch64-perf-pmccntr"@);
                assert(counter_named(cs[i].0) == Some(CounterSource::Cntvct));
            } else {
                assert("unix-monotonic"@ != "x86_64-direct-rdpmc"@);
                assert("unix-monotonic"@ != "x86_64-perf-rdpmc"@);
                assert("unix-monotonic"@ != "x86_64-rdtsc"@);
                assert("unix-monotonic"@ != "aarch64-perf-pmccntr"@);
                assert("unix-monotonic"@ != "aarch64-cntvct"@);
                assert(counter_named(cs[i].0) == Some(CounterSource::ClockMonotonic));
            }
        }
    }
}

} // verus!
