//! The x86_64 Linux call-site layout, whose records also name the RDPMC trampolines.

use vstd::prelude::*;

use crate::stub::{
    branch_destination, branch_stub_spec, bytes_equal, bytes_of, bytes_view, inline_read, lemma_branch_stub_reaches_target,
    planned, x86_64_rdtsc_seq, x86_jmp_stub, Arch, ClockClass, StubAction, Platform,
};
use crate::indices;
use crate::sources::{cycle_source, instant_source, CounterSource};
use crate::target::{Target, TargetArch, TargetOs};

verus! {

/// Length of an x86_64 stub.
pub const PATCH_LEN: usize = 9;

/// Leading bytes of a stub committed by one aligned 8-byte store.
pub const COMMIT_LEN: usize = 8;

/// `rdtsc; shl rdx, 32; or rax, rdx`, filling the whole stub.
pub const RDTSC_BYTES: [u8; 9] = [0x0F, 0x31, 0x48, 0xC1, 0xE2, 0x20, 0x48, 0x09, 0xD0];

/// Addresses recorded for one x86_64 Linux call site.
#[derive(Clone, Copy, Debug, PartialEq, Eq)]
pub struct CallsiteRecord {
    pub patch_address: usize,
    pub cold_address: usize,
    pub fallback_address: usize,
    pub direct_rdpmc_address: usize,
    pub perf_rdpmc_address: usize,
}

/// x86_64 Linux, little-endian.
pub open spec fn x86_64_linux() -> Platform {
    Platform { arch: Arch::X86_64, linux: true, big_endian: false }
}

/// The stub bytes once counter `selected` is chosen for `class`: inline `rdtsc`, or a jump to
/// the trampoline of the selected counter; `None` for an index the class does not use.
pub open spec fn selected_stub_spec(class: ClockClass, record: CallsiteRecord, selected: u8) -> Option<Seq<u8>> {
    let p = x86_64_linux();
    let from = record.patch_address as int;
    if selected == indices::RDTSC {
        Some(x86_64_rdtsc_seq())
    } else if selected == indices::CLOCK_MONOTONIC {
        branch_stub_spec(p, from, record.fallback_address as int)
    } else if class == ClockClass::Cycles && selected == indices::DIRECT_RDPMC {
        branch_stub_spec(p, from, record.direct_rdpmc_address as int)
    } else if class == ClockClass::Cycles && selected == indices::PERF_RDPMC {
        branch_stub_spec(p, from, record.perf_rdpmc_address as int)
    } else {
        None
    }
}

/// A 9-byte stub that jumps from `from` to `to`.
pub fn branch_bytes(from: usize, to: usize) -> (r: Option<Vec<u8>>)
    ensures
        bytes_view(r) == branch_stub_spec(x86_64_linux(), from as int, to as int),
{
    x86_jmp_stub(from, to, PATCH_LEN)
}

/// The stub bytes once counter `selected` is chosen for `class`.
pub fn selected_stub_bytes(class: ClockClass, record: &CallsiteRecord, selected: u8) -> (r: Option<Vec<u8>>)
    ensures
        bytes_view(r) == selected_stub_spec(class, *record, selected),
{
    if selected == indices::RDTSC {
        let b = bytes_of(&RDTSC_BYTES);
        assert(b@ =~= x86_64_rdtsc_seq());
        Some(b)
    } else if selected == indices::CLOCK_MONOTONIC {
        branch_bytes(record.patch_address, record.fallback_address)
    } else if class == ClockClass::Cycles && selected == indices::DIRECT_RDPMC {
        branch_bytes(record.patch_address, record.direct_rdpmc_address)
    } else if class == ClockClass::Cycles && selected == indices::PERF_RDPMC {
        branch_bytes(record.patch_address, record.perf_rdpmc_address)
    } else {
        None
    }
}

/// Decides what to do with the stub of `record`, which currently holds `current`.
pub fn plan_callsite(class: ClockClass, record: &CallsiteRecord, selected: u8, current: &[u8]) -> (a: StubAction)
    ensures
        planned(
            a,
            current@,
            selected_stub_spec(class, *record, selected),
            branch_stub_spec(x86_64_linux(), record.patch_address as int, record.cold_address as int),
        ),
{
    let selected_bytes = match selected_stub_bytes(class, record, selected) {
        Some(b) => b,
        None => return StubAction::Fail,
    };
    let unselected_bytes = match branch_bytes(record.patch_address, record.cold_address) {
        Some(b) => b,
        None => return StubAction::Fail,
    };
    if bytes_equal(current, selected_bytes.as_slice()) {
        return StubAction::Keep;
    }
    if !bytes_equal(current, unselected_bytes.as_slice()) {
        return StubAction::Fail;
    }
    StubAction::Write(selected_bytes)
}

/// The x86_64 Linux target.
pub open spec fn x86_64_linux_target() -> Target {
    Target { arch: TargetArch::X86_64, os: TargetOs::Linux, gnu_env: true }
}

/// The trampoline of `record` that reads `source`: the fallback trampoline for the monotonic
/// clock, and the two RDPMC trampolines for their counters. The time-stamp counter is read
/// inline and has none.
pub open spec fn trampoline_for(record: CallsiteRecord, source: CounterSource) -> Option<int> {
    match source {
        CounterSource::ClockMonotonic => Some(record.fallback_address as int),
        CounterSource::DirectRdpmc => Some(record.direct_rdpmc_address as int),
        CounterSource::PerfRdpmc => Some(record.perf_rdpmc_address as int),
        _ => None,
    }
}

/// The counter that index `selected` names for `class` on x86_64 Linux.
pub open spec fn class_source(class: ClockClass, selected: u8) -> Option<CounterSource> {
    match class {
        ClockClass::Instant => instant_source(x86_64_linux_target(), selected),
        ClockClass::Cycles => cycle_source(x86_64_linux_target(), selected),
    }
}

/// A patched stub runs the counter that was selected: for every clock class, record and
/// index, the stub is present exactly for the indices that name a counter (as far as the
/// trampoline is within branch reach), and it either reads that counter inline or jumps to the
/// trampoline that reads it.
#[verifier::rlimit(50)]
pub proof fn lemma_selected_stub_runs_selected_counter(class: ClockClass, record: CallsiteRecord, selected: u8)
    ensures
        selected_stub_spec(class, record, selected) is Some ==> class_source(class, selected) is Some,
        selected_stub_spec(class, record, selected) matches Some(b) ==> {
            let source = class_source(class, selected)->0;
            match trampoline_for(record, source) {
                Some(t) => branch_destination(x86_64_linux(), record.patch_address as int, b) == Some(t),
                None => inline_read(x86_64_linux(), b) == Some(source),
            }
        },
        class_source(class, selected) matches Some(source) ==> match trampoline_for(record, source) {
            Some(t) => branch_stub_spec(x86_64_linux(), record.patch_address as int, t) is Some ==> selected_stub_spec(
                class,
                record,
                selected,
            ) is Some,
            None => selected_stub_spec(class, record, selected) is Some,
        },
{
    let from = record.patch_address as int;
    if selected == indices::CLOCK_MONOTONIC {
        if branch_stub_spec(x86_64_linux(), from, record.fallback_address as int) is Some {
            lemma_branch_stub_reaches_target(x86_64_linux(), from, record.fallback_address as int);
        }
    } else if class == ClockClass::Cycles && selected == indices::DIRECT_RDPMC {
        if branch_stub_spec(x86_64_linux(), from, record.direct_rdpmc_address as int) is Some {
            lemma_branch_stub_reaches_target(x86_64_linux(), from, record.direct_rdpmc_address as int);
        }
    } else if class == ClockClass::Cycles && selected == indices::PERF_RDPMC {
        if branch_stub_spec(x86_64_linux(), from, record.perf_rdpmc_address as int) is Some {
            lemma_branch_stub_reaches_target(x86_64_linux(), from, record.perf_rdpmc_address as int);
        }
    }
}

} // verus!
