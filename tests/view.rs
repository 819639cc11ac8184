use gsm_alarm::cell::{DynamicReadOnlyCell, GlobalCell};
use gsm_alarm::indication::{Indication, IndicationState, Led};

#[test]
fn led_operations() {
    let mut l = Led::new(false);
    assert!(!l.is_on());
    l.toggle();
    assert!(l.is_on());
    l.set_low();
    assert!(!l.is_on());
    l.set_high();
    assert!(l.is_on());
}

#[test]
fn steady_patterns() {
    let mut v = Indication::new(0);
    assert!(!v.red_on() && !v.green_on());
    v.set_state(IndicationState::Armed);
    assert!(v.red_on() && v.green_on());
    v.set_state(IndicationState::Idle);
    assert!(!v.red_on() && v.green_on());
    v.set_state(IndicationState::Error);
    assert!(!v.red_on() && !v.green_on());
}

#[test]
fn same_state_keeps_leds() {
    let mut v = Indication::new(0);
    v.set_state(IndicationState::ReadyToArm);
    v.poll(1000);
    assert!(v.red_on());
    v.set_state(IndicationState::ReadyToArm);
    assert!(v.red_on());
}

#[test]
fn blink_cadence() {
    let mut v = Indication::new(0);
    v.set_state(IndicationState::CheckBeforeArm);
    v.poll(249);
    assert!(!v.red_on());
    v.poll(250);
    assert!(v.red_on());
    v.poll(499);
    assert!(v.red_on());
    v.poll(500);
    assert!(!v.red_on());
    v.set_state(IndicationState::Error);
    v.poll(1500);
    assert!(v.red_on() && v.green_on());
    v.set_state(IndicationState::Armed);
    v.poll(9000);
    assert!(v.red_on() && v.green_on());
}

#[test]
fn read_only_cell() {
    let mut c = DynamicReadOnlyCell::new(5u32);
    assert_eq!(c.try_get(), None);
    assert!(c.try_get_ref().is_none());
    c.set(7);
    assert_eq!(c.get(), 7);
    assert_eq!(*c.get_ref(), 7);
    let d = DynamicReadOnlyCell::from(9u8);
    assert_eq!(d.try_get(), Some(9));
}

#[test]
fn global_cell() {
    let mut g: GlobalCell<u32> = GlobalCell::new();
    g.set(3);
    *g.get() += 1;
    assert_eq!(*g.get(), 4);
}
