//! Indices that name the counter a clock class has selected.

use vstd::prelude::*;

verus! {

/// The architectural time-stamp counter of x86 / x86_64.
pub const RDTSC: u8 = 0;
/// The aarch64 virtual counter `CNTVCT_EL0`.
pub const CNTVCT: u8 = 0;
/// The riscv64 / loongarch64 time CSR.
pub const RDTIME: u8 = 0;
/// The powerpc64 time base.
pub const MFTB: u8 = 0;
/// The s390x store-clock-fast counter.
pub const STCKF: u8 = 0;
/// The operating-system fallback clock (monotonic clock, Mach time or std's instant).
pub const CLOCK_MONOTONIC: u8 = 1;
/// The aarch64 PMU cycle counter read directly.
pub const PMCCNTR: u8 = 2;
/// The aarch64 PMU cycle counter read through a perf event.
pub const PERF_PMCCNTR: u8 = 3;
/// The x86 fixed-function core-cycle counter read with `rdpmc`.
pub const DIRECT_RDPMC: u8 = 2;
/// The x86 core-cycle counter read through a perf event.
pub const PERF_RDPMC: u8 = 3;
/// The riscv64 cycle CSR.
pub const RDCYCLE: u8 = 2;

/// No counter selected yet.
pub const UNSELECTED: u8 = 255;
/// A thread is running the selection.
pub const SELECTING: u8 = 254;

} // verus!
