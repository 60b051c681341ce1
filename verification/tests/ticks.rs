use std::time::Duration;

use tach::ticks::Ticks;

const FREQUENCY: u64 = 2_400_000_000;

#[test]
fn tick_unit_conversions_use_wide_integers() {
    let one_second = Ticks::from_raw(FREQUENCY);

    assert_eq!(one_second.as_nanos(FREQUENCY), 1_000_000_000);
    assert_eq!(one_second.as_micros(FREQUENCY), 1_000_000);
    assert_eq!(one_second.as_millis(FREQUENCY), 1_000);
    assert_eq!(one_second.as_duration(FREQUENCY), Duration::from_secs(1));
    assert_eq!(one_second.checked_duration(FREQUENCY), Some(Duration::from_secs(1)));
}

#[test]
fn ticks_arithmetic() {
    let a = Ticks::from_raw(100);
    let b = Ticks::from_raw(50);

    assert_eq!(a + b, Ticks::from_raw(150));
    assert_eq!(a - b, Ticks::from_raw(50));
    assert_eq!(a * 2, Ticks::from_raw(200));
    assert_eq!(a / 2, Ticks::from_raw(50));
    assert_eq!(Ticks::from_raw(u64::MAX).wrapping_add(Ticks::from_raw(1)), Ticks::from_raw(0));
    assert_eq!(Ticks::from_raw(u64::MAX).checked_add(Ticks::from_raw(1)), None);
}

#[test]
fn ticks_display() {
    let ticks = Ticks::from_raw(12345);
    assert_eq!(ticks.to_string(), "12345 ticks");
}

#[test]
fn ticks_text_of_zero_and_max() {
    assert_eq!(Ticks::from_raw(0).to_string(), "0 ticks");
    assert_eq!(Ticks::from_raw(u64::MAX).to_string(), "18446744073709551615 ticks");
}

#[test]
fn ticks_saturating_and_checked() {
    let a = Ticks::from_raw(100);
    let b = Ticks::from_raw(50);
    assert_eq!(b.saturating_sub(a), Ticks::from_raw(0));
    assert_eq!(a.saturating_sub(b), Ticks::from_raw(50));
    assert_eq!(b.wrapping_sub(a), Ticks::from_raw(u64::MAX - 49));
    assert_eq!(b.checked_sub(a), None);
    assert_eq!(a.checked_sub(b), Some(Ticks::from_raw(50)));
    assert_eq!(Ticks::from_raw(u64::MAX).saturating_add(a), Ticks::from_raw(u64::MAX));
    assert_eq!(a.checked_add(b), Some(Ticks::from_raw(150)));
    assert!(Ticks::from_raw(0).is_zero());
    assert!(!a.is_zero());
    assert_eq!(a.as_raw(), 100);
    assert_eq!(Ticks::default(), Ticks::from_raw(0));
}

#[test]
fn ticks_wrapping_sub_then_add_restores() {
    let later = Ticks::from_raw(5);
    let earlier = Ticks::from_raw(u64::MAX - 10);
    let delta = later.wrapping_sub(earlier);
    assert_eq!(delta, Ticks::from_raw(16));
    assert_eq!(earlier.wrapping_add(delta), later);
}

#[test]
fn ticks_conversions_truncate() {
    let ticks = Ticks::from_raw(1);
    assert_eq!(ticks.as_nanos(3_000_000_000), 0);
    assert_eq!(ticks.as_nanos(3), 333_333_333);
    assert_eq!(ticks.as_duration(3), Duration::from_nanos(333_333_333));
    assert_eq!(Ticks::from_raw(u64::MAX).as_duration(1), Duration::from_secs(u64::MAX));
}

#[test]
fn ticks_from_and_into_u64() {
    let t: Ticks = Ticks::from(42u64);
    assert_eq!(t, Ticks::from_raw(42));
    let raw: u64 = t.into();
    assert_eq!(raw, 42);
}
