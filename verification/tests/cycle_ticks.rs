use std::time::Duration;

use tach::cycle_ticks::CycleTicks;

const FREQUENCY: u64 = 2_400_000_000;

#[test]
fn cycle_tick_conversions_use_wide_integers() {
    let one_second = CycleTicks::from_raw(FREQUENCY);

    assert_eq!(one_second.as_nanos(FREQUENCY), 1_000_000_000);
    assert_eq!(one_second.as_micros(FREQUENCY), 1_000_000);
    assert_eq!(one_second.as_millis(FREQUENCY), 1_000);
    assert_eq!(one_second.as_duration(FREQUENCY), Duration::from_secs(1));
    assert_eq!(one_second.checked_duration(FREQUENCY), Some(Duration::from_secs(1)));
}

#[test]
fn cycle_ticks_arithmetic() {
    let a = CycleTicks::from_raw(100);
    let b = CycleTicks::from_raw(50);

    assert_eq!(a + b, CycleTicks::from_raw(150));
    assert_eq!(a - b, CycleTicks::from_raw(50));
    assert_eq!(a * 2, CycleTicks::from_raw(200));
    assert_eq!(a / 2, CycleTicks::from_raw(50));
    assert_eq!(CycleTicks::from_raw(u64::MAX).wrapping_add(CycleTicks::from_raw(1)), CycleTicks::from_raw(0));
    assert_eq!(CycleTicks::from_raw(u64::MAX).checked_add(CycleTicks::from_raw(1)), None);
}

#[test]
fn cycle_ticks_display() {
    let ticks = CycleTicks::from_raw(12345);
    assert_eq!(ticks.to_string(), "12345 cycles");
}

#[test]
fn cycle_ticks_text_of_zero_and_max() {
    assert_eq!(CycleTicks::from_raw(0).to_string(), "0 cycles");
    assert_eq!(CycleTicks::from_raw(u64::MAX).to_string(), "18446744073709551615 cycles");
}

#[test]
fn cycle_ticks_saturating_and_checked() {
    let a = CycleTicks::from_raw(100);
    let b = CycleTicks::from_raw(50);
    assert_eq!(b.saturating_sub(a), CycleTicks::from_raw(0));
    assert_eq!(a.saturating_sub(b), CycleTicks::from_raw(50));
    assert_eq!(b.wrapping_sub(a), CycleTicks::from_raw(u64::MAX - 49));
    assert_eq!(b.checked_sub(a), None);
    assert_eq!(a.checked_sub(b), Some(CycleTicks::from_raw(50)));
    assert_eq!(CycleTicks::from_raw(u64::MAX).saturating_add(a), CycleTicks::from_raw(u64::MAX));
    assert_eq!(a.checked_add(b), Some(CycleTicks::from_raw(150)));
    assert!(CycleTicks::from_raw(0).is_zero());
    assert!(!a.is_zero());
    assert_eq!(a.as_raw(), 100);
    assert_eq!(CycleTicks::default(), CycleTicks::from_raw(0));
}

#[test]
fn cycle_ticks_wrapping_sub_then_add_restores() {
    let later = CycleTicks::from_raw(5);
    let earlier = CycleTicks::from_raw(u64::MAX - 10);
    let delta = later.wrapping_sub(earlier);
    assert_eq!(delta, CycleTicks::from_raw(16));
    assert_eq!(earlier.wrapping_add(delta), later);
}

#[test]
fn cycle_ticks_conversions_truncate() {
    let ticks = CycleTicks::from_raw(1);
    assert_eq!(ticks.as_nanos(3_000_000_000), 0);
    assert_eq!(ticks.as_nanos(3), 333_333_333);
    assert_eq!(ticks.as_duration(3), Duration::from_nanos(333_333_333));
    assert_eq!(CycleTicks::from_raw(u64::MAX).as_duration(1), Duration::from_secs(u64::MAX));
}

#[test]
fn cycle_ticks_from_and_into_u64() {
    let t: CycleTicks = CycleTicks::from(42u64);
    assert_eq!(t, CycleTicks::from_raw(42));
    let raw: u64 = t.into();
    assert_eq!(raw, 42);
}
