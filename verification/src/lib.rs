//! Counter-based timekeeping: tick deltas, cycle-counter samples, instants and the
//! arithmetic that turns raw counter movement into wall-clock durations, together with the
//! decisions behind choosing, calibrating and patching in the counter itself.

pub mod aarch64_linux;
pub mod background;
pub mod bench;
pub mod calibration;
pub mod convert;
pub mod counter_eval;
pub mod cycle_ticks;
pub mod cycles;
pub mod direct;
pub mod frequency;
pub mod indices;
pub mod instant;
pub mod patch;
pub mod perf;
pub mod resolution;
pub mod runtime_api;
pub mod selection;
pub mod selector;
pub mod sorting;
pub mod sources;
pub mod stub;
pub mod target;
pub mod text;
pub mod textual;
pub mod ticks;
pub mod validation;
pub mod x86_64_linux;
