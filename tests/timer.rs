use gsm_alarm::timer::{CounterTypeExt, MilliSeconds, Seconds, SystemTimer, TimeType, Timer};

#[test]
fn every_not_twice_without_time_passing() {
    let mut t = Timer::new(0);
    assert!(t.every(1000, MilliSeconds(1000)));
    assert!(!t.every(1000, MilliSeconds(1000)));
    assert!(!t.every(1999, MilliSeconds(1000)));
    assert!(t.every(2000, MilliSeconds(1000)));
}

#[test]
fn elapsed_right_after_mark_is_zero() {
    let mut t = Timer::new(5);
    t.reset(700);
    assert_eq!(t.elapsed(700), 0);
    assert!(t.waiting(700, &MilliSeconds(1)));
}

#[test]
fn elapsed_across_wrap() {
    let t = Timer::new(65530);
    assert_eq!(t.elapsed(4), 10);
    assert!(!t.waiting(4, &MilliSeconds(10)));
    assert!(t.waiting(3, &MilliSeconds(10)));
}

#[test]
fn every_with_seconds() {
    let mut t = Timer::new(0);
    assert!(!t.every(9999, 10u16.sec()));
    assert!(t.every(10000, 10u16.sec()));
}

#[test]
fn duration_units() {
    assert_eq!(Seconds(2).value(), 2000);
    assert_eq!(MilliSeconds(300).value(), 300);
    assert_eq!(Seconds(3).to_millis().0, 3000);
    assert_eq!(MilliSeconds(2999).to_seconds().0, 2);
    assert_eq!(Seconds(10).plus(Seconds(10)).0, 20);
    assert_eq!(MilliSeconds(250).plus(MilliSeconds(250)).0, 500);
    assert_eq!(7u16.mil().0, 7);
}

#[test]
fn system_timer_wraps() {
    let mut s = SystemTimer::new();
    assert_eq!(s.now(), 0);
    s.inc(1);
    assert_eq!(s.now(), 1);
    s.inc(65535);
    assert_eq!(s.now(), 0);
}
