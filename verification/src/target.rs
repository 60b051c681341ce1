//! The compilation target, as the counter choices depend on it.

use vstd::prelude::*;

verus! {

/// Target instruction-set architecture.
#[derive(Clone, Copy, Debug, PartialEq, Eq, Structural)]
pub enum TargetArch {
    X86_64,
    X86,
    Aarch64,
    Riscv64,
    Powerpc64,
    S390x,
    Loongarch64,
    Wasm32,
    Other,
}

/// Target operating system.
#[derive(Clone, Copy, Debug, PartialEq, Eq, Structural)]
pub enum TargetOs {
    Linux,
    MacOs,
    Windows,
    Wasi,
    /// A Unix other than Linux and macOS.
    OtherUnix,
    /// Neither Unix, Windows nor WASI.
    OtherNonUnix,
    /// No operating system (such as `wasm32-unknown-unknown` and `wasm32v1-none`).
    Unknown,
}

/// The target a build is for.
#[derive(Clone, Copy, Debug, PartialEq, Eq, Structural)]
pub struct Target {
    pub arch: TargetArch,
    pub os: TargetOs,
    /// The C environment is GNU (which offers the vDSO clock entry points).
    pub gnu_env: bool,
}

/// The operating system is a Unix.
pub open spec fn is_unix(os: TargetOs) -> bool {
    os == TargetOs::Linux || os == TargetOs::MacOs || os == TargetOs::OtherUnix
}

/// Whether `os` is a Unix.
pub fn unix(os: TargetOs) -> (r: bool)
    ensures
        r == is_unix(os),
{
    match os {
        TargetOs::Linux | TargetOs::MacOs | TargetOs::OtherUnix => true,
        _ => false,
    }
}

/// The architecture has an architectural counter that the crate reads directly.
pub open spec fn has_native_counter(arch: TargetArch) -> bool {
    !(arch == TargetArch::Wasm32 || arch == TargetArch::Other)
}

} // verus!
