use std::time::Duration;

use tach::background::recalibration_interval_secs;
use tach::resolution::resolution_ticks;
use tach::calibration::{calibrate_frequency, sample_hz, unfiltered_frequency, CalibrationSample};
use tach::counter_eval::{
    measure_counter_latency, score_counter, score_is_better, validate_counter, validate_counter_stable,
    CounterLatency, CounterScore, CounterValidation, LATENCY_MEASURE_ITERS,
};

fn sample(ticks: u64, wall_elapsed_ns: u64) -> CalibrationSample {
    CalibrationSample { ticks, wall_elapsed_ns }
}

#[test]
fn calibration_takes_the_median_of_unpreempted_samples() {
    let samples = [
        sample(300_000_000, 100_000_000),
        sample(310_000_000, 100_000_000),
        sample(900_000_000, 300_000_000),
        sample(290_000_000, 100_000_000),
        sample(305_000_000, 100_000_000),
    ];
    assert_eq!(calibrate_frequency(&samples), Some(3_050_000_000));
}

#[test]
fn calibration_with_every_sample_preempted_reports_none() {
    let samples = [sample(1, 200_000_000), sample(5, 0), sample(7, 150_000_001)];
    assert_eq!(calibrate_frequency(&samples), None);
    assert_eq!(unfiltered_frequency(sample(300_000_000, 200_000_000)), 1_500_000_000);
    assert_eq!(unfiltered_frequency(sample(300_000_000, 0)), 0);
}

#[test]
fn sample_rate_saturates_and_rejects_empty_windows() {
    assert_eq!(sample_hz(u64::MAX, 1), Some(u64::MAX));
    assert_eq!(sample_hz(100, 0), None);
    assert_eq!(sample_hz(2_400, 1_000), Some(2_400_000_000));
}

#[test]
fn calibration_with_an_even_count_takes_the_upper_middle() {
    let samples = [sample(1, 1), sample(4, 1), sample(2, 1), sample(3, 1)];
    assert_eq!(calibrate_frequency(&samples), Some(3_000_000_000));
}

#[test]
fn counter_validation_finds_precision() {
    let times = [10u64, 10, 13, 15, 15, 2_000_000, 2_000_004];
    assert_eq!(validate_counter(true, &times, true), Some(CounterValidation { precision_ticks: 2 }));
    assert_eq!(validate_counter(false, &times, true), None);
    assert_eq!(validate_counter(true, &times, false), None);
    assert_eq!(validate_counter(true, &[5, 5, 5], true), None);
    assert_eq!(validate_counter(true, &[5, 4, 6], true), None);
    assert_eq!(validate_counter(true, &[0, 5_000_000], true), None);
}

#[test]
fn stable_validation_keeps_the_coarsest_precision() {
    let v = |p| Some(CounterValidation { precision_ticks: p });
    assert_eq!(validate_counter_stable(&[v(3), v(9), v(4)]), v(9));
    assert_eq!(validate_counter_stable(&[v(3), None, v(4)]), None);
    assert_eq!(validate_counter_stable(&[]), v(0));
}

#[test]
fn latency_summary_and_scores() {
    let latency = measure_counter_latency(&[50, 10, 40, 20, 30]);
    assert_eq!(
        latency,
        CounterLatency { best_total_nanos: 10, median_total_nanos: 30, worst_total_nanos: 50, iterations: LATENCY_MEASURE_ITERS }
    );
    let score = |median, best, precision| CounterScore {
        validation: CounterValidation { precision_ticks: precision },
        latency: CounterLatency { best_total_nanos: best, median_total_nanos: median, worst_total_nanos: 0, iterations: 1 },
    };
    assert!(score_is_better(score(1, 9, 9), score(2, 0, 0)));
    assert!(score_is_better(score(2, 1, 9), score(2, 2, 0)));
    assert!(score_is_better(score(2, 2, 1), score(2, 2, 2)));
    assert!(!score_is_better(score(2, 2, 2), score(2, 2, 2)));
    assert_eq!(score_counter(None, latency), None);
    assert!(score_counter(Some(CounterValidation { precision_ticks: 1 }), latency).is_some());
}

#[test]
fn recalibration_interval_is_at_least_one_second() {
    assert_eq!(recalibration_interval_secs(Duration::from_millis(10)), 1);
    assert_eq!(recalibration_interval_secs(Duration::from_secs(90)), 90);
    assert_eq!(recalibration_interval_secs(Duration::from_millis(2_999)), 2);
}

#[test]
fn resolution_is_the_median_smallest_step() {
    assert_eq!(resolution_ticks(&[5, 1, 3]), Some(3));
    assert_eq!(resolution_ticks(&[4, 2]), Some(4));
    assert_eq!(resolution_ticks(&[u64::MAX]), Some(u64::MAX));
    assert_eq!(resolution_ticks(&[]), None);
}
