//! The counter behind `Instant` on targets that read it directly, without runtime selection.

use vstd::prelude::*;

use crate::sources::CounterSource;
use crate::target::{has_native_counter, is_unix, unix, Target, TargetArch, TargetOs};

verus! {

/// The name of the directly read counter on `target`, when the target reads one directly:
/// `CNTVCT_EL0` on Apple aarch64, and the operating-system clock on architectures without a
/// native counter.
pub open spec fn direct_implementation(target: Target) -> Option<Seq<char>> {
    if target.arch == TargetArch::Aarch64 && target.os == TargetOs::MacOs {
        Some("aarch64-cntvct"@)
    } else if has_native_counter(target.arch) {
        None
    } else if target.os == TargetOs::MacOs {
        Some("macos-mach"@)
    } else if is_unix(target.os) {
        Some("unix-monotonic"@)
    } else {
        Some("std-instant"@)
    }
}

/// The name of the counter that `Instant` reads directly on `target`, or `None` where the
/// counter is chosen at run time.
pub fn implementation(target: Target) -> (r: Option<&'static str>)
    ensures
        match r {
            Some(name) => direct_implementation(target) == Some(name@),
            None => direct_implementation(target) is None,
        },
{
    if target.arch == TargetArch::Aarch64 && target.os == TargetOs::MacOs {
        return Some("aarch64-cntvct");
    }
    match target.arch {
        TargetArch::Wasm32 | TargetArch::Other => {},
        _ => return None,
    }
    if target.os == TargetOs::MacOs {
        Some("macos-mach")
    } else if unix(target.os) {
        Some("unix-monotonic")
    } else {
        Some("std-instant")
    }
}

/// The counter that `Instant` reads directly on `target`: `CNTVCT_EL0` on Apple aarch64, the
/// operating-system clock on architectures without a native counter; `None` where the counter
/// is chosen at run time.
pub open spec fn direct_source_spec(target: Target) -> Option<CounterSource> {
    if target.arch == TargetArch::Aarch64 && target.os == TargetOs::MacOs {
        Some(CounterSource::Cntvct)
    } else if has_native_counter(target.arch) {
        None
    } else if target.os == TargetOs::MacOs {
        Some(CounterSource::MachTime)
    } else if is_unix(target.os) {
        Some(CounterSource::ClockMonotonic)
    } else {
        Some(CounterSource::StdInstant)
    }
}

/// The counter that a direct read takes on `target`.
pub fn direct_source(target: Target) -> (r: Option<CounterSource>)
    ensures
        r == direct_source_spec(target),
{
    if target.arch == TargetArch::Aarch64 && target.os == TargetOs::MacOs {
        return Some(CounterSource::Cntvct);
    }
    match target.arch {
        TargetArch::Wasm32 | TargetArch::Other => {},
        _ => return None,
    }
    if target.os == TargetOs::MacOs {
        Some(CounterSource::MachTime)
    } else if unix(target.os) {
        Some(CounterSource::ClockMonotonic)
    } else {
        Some(CounterSource::StdInstant)
    }
}

/// The name under which a directly read counter is reported.
pub open spec fn direct_source_name(source: CounterSource) -> Seq<char> {
    match source {
        CounterSource::Cntvct => "aarch64-cntvct"@,
        CounterSource::MachTime => "macos-mach"@,
        CounterSource::ClockMonotonic => "unix-monotonic"@,
        CounterSource::StdInstant => "std-instant"@,
        _ => Seq::empty(),
    }
}

/// The reported name and the counter read agree: a target reports a direct implementation
/// exactly when it reads a counter directly, and the name is that counter's.
pub proof fn lemma_direct_name_matches_source(target: Target)
    ensures
        match direct_source_spec(target) {
            Some(source) => direct_implementation(target) == Some(direct_source_name(source)),
            None => direct_implementation(target) is None,
        },
{
}

} // verus!
