use std::time::Duration;

use tach::convert::{
    duration_to_ticks, nanos_to_duration, ticks_to_duration, ticks_to_duration_saturating, ticks_to_unit,
    NANOS_PER_SECOND,
};

#[test]
fn duration_conversion_reports_overflow() {
    let too_many_nanos = u128::from(u64::MAX) * NANOS_PER_SECOND + NANOS_PER_SECOND;

    assert_eq!(nanos_to_duration(too_many_nanos), None);
}

#[test]
fn duration_to_ticks_rounds_up() {
    assert_eq!(duration_to_ticks(Duration::from_nanos(1), 500_000_000), Some(1));
}

#[test]
fn nanos_to_duration_splits_seconds() {
    assert_eq!(nanos_to_duration(1_500_000_000), Some(Duration::new(1, 500_000_000)));
    let largest = u128::from(u64::MAX) * NANOS_PER_SECOND + 999_999_999;
    assert_eq!(nanos_to_duration(largest), Some(Duration::MAX));
}

#[test]
fn ticks_to_unit_rounds_down() {
    assert_eq!(ticks_to_unit(10, 3, NANOS_PER_SECOND), 3_333_333_333);
    assert_eq!(ticks_to_unit(2_999_999_999, 3_000_000_000, 1_000), 999);
}

#[test]
fn ticks_to_duration_is_always_some() {
    assert_eq!(ticks_to_duration(u64::MAX, 1), Some(Duration::from_secs(u64::MAX)));
    assert_eq!(ticks_to_duration(3, 2), Some(Duration::from_millis(1500)));
    assert_eq!(ticks_to_duration_saturating(u64::MAX, 1), Duration::from_secs(u64::MAX));
}

#[test]
fn duration_to_ticks_overflow_and_exact() {
    assert_eq!(duration_to_ticks(Duration::from_secs(2), 3_000_000_000), Some(6_000_000_000));
    assert_eq!(duration_to_ticks(Duration::from_nanos(1_000_000_001), 1_000_000_000), Some(1_000_000_001));
    assert_eq!(duration_to_ticks(Duration::ZERO, 0), Some(0));
    assert_eq!(duration_to_ticks(Duration::from_secs(u64::MAX), 2), None);
    assert_eq!(duration_to_ticks(Duration::MAX, u64::MAX), None);
}

#[test]
fn ticks_nanos_round_trip_at_or_below_one_gigahertz() {
    for &freq in &[1u64, 7, 32_768, 999_999_937, 1_000_000_000] {
        for &ticks in &[0u64, 1, 2, 12_345, 1 << 40] {
            let d = ticks_to_duration(ticks, freq).unwrap();
            assert_eq!(duration_to_ticks(d, freq), Some(ticks));
        }
    }
}

#[test]
fn nanos_ticks_round_trip_at_or_above_one_gigahertz() {
    for &freq in &[1_000_000_000u64, 2_400_000_000, 3_000_000_001] {
        for &nanos in &[0u64, 1, 999, 123_456_789, 10_000_000_000] {
            let d = Duration::from_nanos(nanos);
            let ticks = duration_to_ticks(d, freq).unwrap();
            assert_eq!(ticks_to_duration(ticks, freq), Some(d));
        }
    }
}
