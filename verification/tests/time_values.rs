//! Tests of the microsecond time values and the inter-frame-space constant.

use ble_radio::time::{t_ifs, Duration, Instant, Timer, T_IFS_MICROS};

#[test]
fn t_ifs_is_exactly_150_microseconds() {
    assert_eq!(T_IFS_MICROS, 150);
    assert_eq!(t_ifs().to_micros(), 150);
}

#[test]
fn duration_micros_roundtrip() {
    assert_eq!(Duration::micros(0).to_micros(), 0);
    assert_eq!(Duration::micros(1).to_micros(), 1);
    assert_eq!(Duration::micros(u32::MAX).to_micros(), u32::MAX);
}

#[test]
fn duration_addition_with_t_ifs_is_exact() {
    let d = Duration::micros(1_000);
    let sum = d.checked_add(t_ifs()).unwrap();
    assert_eq!(sum.to_micros(), 1_150);
}

#[test]
fn duration_addition_overflow_is_none_not_truncated() {
    let d = Duration::micros(u32::MAX - 100);
    assert!(d.checked_add(t_ifs()).is_none());
}

#[test]
fn duration_subtraction_is_exact() {
    let d = Duration::micros(500);
    assert_eq!(d.checked_sub(t_ifs()).unwrap().to_micros(), 350);
    assert!(t_ifs().checked_sub(d).is_none());
}

#[test]
fn instant_wrapping_addition() {
    let t = Instant::from_micros(u32::MAX - 49);
    let later = t.wrapping_add(t_ifs());
    assert_eq!(later.to_micros(), 100);

    let t = Instant::from_micros(1_000);
    assert_eq!(t.wrapping_add(t_ifs()).to_micros(), 1_150);
}

#[test]
fn instant_duration_since_is_wraparound_aware() {
    let earlier = Instant::from_micros(u32::MAX - 49);
    let later = Instant::from_micros(100);
    assert_eq!(later.duration_since(earlier).to_micros(), 150);

    let earlier = Instant::from_micros(100);
    let later = Instant::from_micros(250);
    assert_eq!(later.duration_since(earlier).to_micros(), 150);
}

struct FixedTimer {
    now: u32,
}

impl Timer for FixedTimer {
    fn now(&self) -> Instant {
        Instant::from_micros(self.now)
    }
}

#[test]
fn timer_capability_supplies_the_current_instant() {
    let timer = FixedTimer { now: 12_345 };
    assert_eq!(timer.now().to_micros(), 12_345);
}
