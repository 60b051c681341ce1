use std::time::Duration;

use tach::cycle_ticks::CycleTicks;
use tach::cycles::Cycles;

const FREQUENCY: u64 = 1_000_000_000;

#[test]
fn duration_arithmetic() {
    let a = Cycles::from_raw(100);
    let b = Cycles::from_raw(50);
    let ticks = CycleTicks::from_raw(50);
    let duration = ticks.as_duration(FREQUENCY);

    assert_eq!(a.duration_since(b, FREQUENCY), duration);
    assert_eq!(a.elapsed(a, FREQUENCY), Duration::ZERO);
    assert_eq!(b + ticks, a);
    assert_eq!(a - ticks, b);
    assert_eq!(a.checked_duration_since(b, FREQUENCY), Some(duration));
    assert_eq!(b.checked_duration_since(a, FREQUENCY), None);
    assert_eq!(b.saturating_duration_since(a, FREQUENCY), Duration::ZERO);
    assert_eq!(a.ticks_since(b), ticks);
    assert_eq!(a.checked_ticks_since(b), Some(ticks));
    assert_eq!(b.checked_ticks_since(a), None);
    assert_eq!(b.saturating_ticks_since(a), CycleTicks::from_raw(0));
    assert_eq!(b.wrapping_ticks_since(a), CycleTicks::from_raw(u64::MAX - 49));
    assert_eq!(a.checked_add_ticks(CycleTicks::from_raw(u64::MAX)), None);
    assert_eq!(b.checked_sub_ticks(CycleTicks::from_raw(51)), None);
    assert_eq!(b.saturating_sub_ticks(CycleTicks::from_raw(51)), Cycles::from_raw(0));
}

#[test]
fn std_duration_arithmetic() {
    let frequency = 3_000_000_000;
    let one_second = Duration::from_secs(1);
    let one_second_ticks = CycleTicks::from_raw(frequency);
    let start = Cycles::from_raw(0);
    let later = Cycles::from_raw(one_second_ticks.as_raw());

    assert_eq!(start.checked_add(one_second, frequency), Some(later));
    assert_eq!(later.checked_sub(one_second, frequency), Some(start));

    let mut assign = start;
    assign = assign.checked_add(one_second, frequency).unwrap();
    assert_eq!(assign, later);
    assign = assign.checked_sub(one_second, frequency).unwrap();
    assert_eq!(assign, start);
}

#[test]
fn elapsed_measures_from_the_sample_to_now() {
    let start = Cycles::from_raw(1_000);
    let now = Cycles::from_raw(3_500);
    assert_eq!(start.elapsed(now, 1_000), Duration::from_millis(2_500));
    assert_eq!(start.elapsed_ticks(now), CycleTicks::from_raw(2_500));
    assert_eq!(now.elapsed_ticks(start), CycleTicks::from_raw(u64::MAX - 2_499));
    assert_eq!(now.elapsed(start, 1_000), Duration::ZERO);
}

#[test]
fn checked_duration_moves_round_up_and_detect_overflow() {
    let start = Cycles::from_raw(10);
    assert_eq!(start.checked_add(Duration::from_nanos(1), 1_000), Some(Cycles::from_raw(11)));
    assert_eq!(start.checked_sub(Duration::from_nanos(1), 1_000), Some(Cycles::from_raw(9)));
    assert_eq!(start.checked_sub(Duration::from_secs(1), 1_000), None);
    assert_eq!(Cycles::from_raw(u64::MAX - 1).checked_add(Duration::from_nanos(1), 1), Some(Cycles::from_raw(u64::MAX)));
    assert_eq!(Cycles::from_raw(u64::MAX).checked_add(Duration::from_nanos(1), 1), None);
    assert_eq!(Cycles::from_raw(u64::MAX).checked_add(Duration::from_secs(1), 1), None);
    assert_eq!(start.checked_add(Duration::MAX, u64::MAX), None);
}

#[test]
fn cycles_accessors_and_reset() {
    let mut c = Cycles::from_raw(7);
    assert_eq!(c.as_raw(), 7);
    assert!(!c.is_zero());
    assert!(Cycles::default().is_zero());
    c.reset(Cycles::from_raw(99));
    assert_eq!(c, Cycles::from_raw(99));
    assert_eq!(c.to_string(), "99 cycles");
    let raw: u64 = c.into();
    assert_eq!(raw, 99);
    assert_eq!(Cycles::from(5u64), Cycles::from_raw(5));
    assert_eq!(Cycles::from_raw(u64::MAX).saturating_add_ticks(CycleTicks::from_raw(1)), Cycles::from_raw(u64::MAX));
}
