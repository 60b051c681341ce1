use tach::indices;
use tach::selection::{cycle_candidates, select_best_cycles, test_local_monotonic, CandidateReport};
use tach::selector::{implementation, publish_selection, selection_step, SelectionStep};
use tach::stub::Arch;

fn report(index: u8, name: &'static str, usable: bool, latency: Option<u128>) -> CandidateReport {
    CandidateReport { index, name, prepared: usable, works: true, local_monotonic: true, latency }
}

#[test]
fn x86_64_linux_patch_test_is_target_specific() {
    assert!(!implementation(None).is_empty());
    assert_eq!(implementation(Some("x86_64-rdtsc")), "x86_64-rdtsc");
}

#[test]
fn selection_picks_the_fastest_usable_candidate() {
    let reports = [
        report(2, "x86_64-direct-rdpmc", false, None),
        report(3, "x86_64-perf-rdpmc", true, Some(900)),
        report(0, "x86_64-rdtsc", true, Some(700)),
        report(1, "unix-monotonic", true, Some(700)),
    ];
    assert_eq!(select_best_cycles(&reports), (0, "x86_64-rdtsc"));
}

#[test]
fn selection_falls_back_to_the_last_candidate() {
    let reports = [report(2, "a", false, Some(1)), report(1, "unix-monotonic", true, None)];
    assert_eq!(select_best_cycles(&reports), (1, "unix-monotonic"));
}

#[test]
fn local_monotonic_needs_progress_without_regression() {
    assert!(test_local_monotonic(&[1, 1, 2, 2, 3]));
    assert!(!test_local_monotonic(&[5, 5, 5]));
    assert!(!test_local_monotonic(&[1, 3, 2, 4]));
    assert!(!test_local_monotonic(&[7]));
}

#[test]
fn cycle_candidate_lists() {
    let x86 = cycle_candidates(Arch::X86_64);
    assert_eq!(x86.len(), 4);
    assert_eq!(x86[0].name, "x86_64-direct-rdpmc");
    assert_eq!(x86.last().unwrap().name, "unix-monotonic");
    let arm = cycle_candidates(Arch::Aarch64);
    assert_eq!(arm[0].index, indices::PERF_PMCCNTR);
    assert!(cycle_candidates(Arch::Riscv64).is_empty());
}

#[test]
fn selection_state_steps() {
    assert_eq!(selection_step(indices::UNSELECTED), SelectionStep::Claim);
    assert_eq!(selection_step(indices::SELECTING), SelectionStep::Wait);
    assert_eq!(selection_step(publish_selection(3)), SelectionStep::Use(3));
}
