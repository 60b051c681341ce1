use std::time::Duration;

use tach::instant::{nanos_per_tick_q32, recalibrate, ticks_to_duration, Instant, OrderedInstant};

#[test]
fn ordered_as_unordered_preserves_tick_value() {
    let scale = nanos_per_tick_q32(2_900_000_000);
    let ordered = OrderedInstant::from_raw_ticks(1_234_567);
    let unordered = ordered.as_unordered();
    assert_eq!(unordered, Instant::from_raw_ticks(1_234_567));
    let now = Instant::from_raw_ticks(9_999_999);
    let elapsed_from_ordered = ordered.elapsed_unordered(now, scale);
    let elapsed_from_unordered = unordered.elapsed(now, scale);
    let diff = elapsed_from_ordered.abs_diff(elapsed_from_unordered);
    assert!(diff.as_millis() < 1, "elapsed diverged after as_unordered: {diff:?}");
    assert_eq!(elapsed_from_ordered, elapsed_from_unordered);
}

#[test]
fn q32_scale_values() {
    assert_eq!(nanos_per_tick_q32(1_000_000_000), 1 << 32);
    assert_eq!(nanos_per_tick_q32(2_000_000_000), 1 << 31);
    assert_eq!(nanos_per_tick_q32(1), 4_294_967_296_000_000_000);
    assert_eq!(recalibrate(0), None);
    assert_eq!(recalibrate(1_000_000_000), Some(1 << 32));
}

#[test]
fn q32_conversion_at_one_gigahertz_is_exact() {
    let scale = nanos_per_tick_q32(1_000_000_000);
    assert_eq!(ticks_to_duration(0, scale), Duration::ZERO);
    assert_eq!(ticks_to_duration(999_999_999, scale), Duration::from_nanos(999_999_999));
    assert_eq!(ticks_to_duration(1_500_000_000, scale), Duration::from_millis(1_500));
}

#[test]
fn q32_conversion_never_overshoots() {
    let freq = 3_000_000_000u64;
    let scale = nanos_per_tick_q32(freq);
    for &ticks in &[1u64, 3, 1_000, 3_000_000_000, 123_456_789_012] {
        let q32 = ticks_to_duration(ticks, scale).as_nanos();
        let exact = u128::from(ticks) * 1_000_000_000 / u128::from(freq);
        assert!(q32 <= exact);
        assert!(exact - q32 <= u128::from(ticks >> 32) + 1);
    }
}

#[test]
fn q32_conversion_clamps_at_u64_nanos() {
    assert_eq!(ticks_to_duration(u64::MAX, u64::MAX), Duration::from_nanos(u64::MAX));
}

#[test]
fn elapsed_wraps_across_rollover() {
    let scale = nanos_per_tick_q32(1_000_000_000);
    let start = Instant::from_raw_ticks(u64::MAX - 9);
    let now = Instant::from_raw_ticks(10);
    assert_eq!(start.elapsed(now, scale), Duration::from_nanos(20));
    let ostart = OrderedInstant::from_raw_ticks(100);
    assert_eq!(ostart.elapsed(OrderedInstant::from_raw_ticks(350), scale), Duration::from_nanos(250));
}

fn assert_send_sync<T: Send + Sync>() {}

#[test]
fn instant_is_send_sync() {
    assert_send_sync::<Instant>();
    assert_send_sync::<OrderedInstant>();
}

#[test]
fn elapsed_depends_on_the_span_only() {
    let scale = nanos_per_tick_q32(3_000_000_000);
    let early = Instant::from_raw_ticks(10).elapsed(Instant::from_raw_ticks(3_000_000_010), scale);
    let late = Instant::from_raw_ticks(u64::MAX - 5).elapsed(Instant::from_raw_ticks(2_999_999_994), scale);
    assert_eq!(early, late);
    assert!(early <= Duration::from_secs(1));
    assert!(Duration::from_secs(1) - early <= Duration::from_nanos(2));
}

#[test]
fn longer_spans_never_convert_shorter() {
    let scale = nanos_per_tick_q32(2_400_000_000);
    let mut previous = Duration::ZERO;
    for ticks in [0u64, 1, 2, 3, 1_000, 2_400_000_000, u64::MAX / 4, u64::MAX] {
        let d = ticks_to_duration(ticks, scale);
        assert!(d >= previous);
        previous = d;
    }
}

#[test]
fn split_spans_lose_at_most_a_nanosecond() {
    let scale = nanos_per_tick_q32(2_900_000_000);
    for (a, b) in [(1u64, 1u64), (1_234_567, 7_654_321), (2_899_999_999, 1), (u64::MAX / 8, u64::MAX / 8)] {
        let whole = ticks_to_duration(a + b, scale);
        let parts = ticks_to_duration(a, scale) + ticks_to_duration(b, scale);
        assert!(parts <= whole);
        assert!(whole - parts <= Duration::from_nanos(1));
    }
}
