use gsm_alarm::debounce::{Button, DebounceCounter, DoorSensor, DoorState, DEBOUNCE_MAX};

#[test]
fn counter_reports_on_third_disagreeing_sample() {
    let mut c = DebounceCounter::new();
    assert!(!c.sample(false));
    assert!(!c.sample(false));
    assert!(c.sample(false));
    assert!(!c.sample(false));
    assert!(!c.sample(true));
    assert_eq!(DEBOUNCE_MAX, 3);
}

#[test]
fn counter_reset_by_agreeing_sample() {
    let mut c = DebounceCounter::new();
    assert!(!c.sample(false));
    assert!(!c.sample(false));
    assert!(!c.sample(true));
    assert!(!c.sample(false));
    assert!(!c.sample(false));
    assert!(c.sample(false));
}

#[test]
fn button_press_after_chatter_on_fifth_sample() {
    // resting high; samples low, high, low, low, low
    let mut b = Button::new(true, 0);
    let levels = [false, true, false, false, false];
    let mut events = Vec::new();
    for (i, l) in levels.iter().enumerate() {
        let now = 25 * (i as u16 + 1);
        events.push(b.is_pressed(now, Some(*l)));
    }
    assert_eq!(events, vec![None, None, None, None, Some(true)]);
}

#[test]
fn button_not_sampled_before_period() {
    let mut b = Button::new(true, 100);
    for now in 100..125u16 {
        assert_eq!(b.is_pressed(now, Some(false)), None);
    }
    // the samples above were skipped: three more are still needed
    assert_eq!(b.is_pressed(125, Some(false)), None);
    assert_eq!(b.is_pressed(150, Some(false)), None);
    assert_eq!(b.is_pressed(175, Some(false)), Some(true));
}

#[test]
fn button_one_shot_while_held() {
    let mut b = Button::new(true, 0);
    let mut presses = 0;
    for i in 1..=10u16 {
        if b.is_pressed(25 * i, Some(false)) == Some(true) {
            presses += 1;
        }
    }
    assert_eq!(presses, 1);
}

#[test]
fn button_failed_read_ignored() {
    let mut b = Button::new(true, 0);
    assert_eq!(b.is_pressed(25, Some(false)), None);
    assert_eq!(b.is_pressed(50, None), None);
    assert_eq!(b.is_pressed(75, Some(false)), None);
    assert_eq!(b.is_pressed(100, Some(false)), Some(true));
}

#[test]
fn door_reports_close_then_open() {
    // door starts open (pin high)
    let mut d = DoorSensor::new(0, Some(true));
    assert_eq!(d.state(1000, Some(false)), None);
    assert_eq!(d.state(2000, Some(false)), None);
    assert_eq!(d.state(3000, Some(false)), Some(DoorState::Closed));
    assert_eq!(d.state(4000, Some(false)), None);
    assert_eq!(d.state(5000, Some(true)), None);
    assert_eq!(d.state(6000, Some(true)), None);
    assert_eq!(d.state(7000, Some(true)), Some(DoorState::Opened));
}

#[test]
fn door_double_toggle_suppressed() {
    let mut d = DoorSensor::new(0, Some(true));
    assert_eq!(d.state(1000, Some(false)), None);
    assert_eq!(d.state(2000, Some(false)), None);
    assert_eq!(d.state(3000, Some(true)), None);
    assert_eq!(d.state(4000, Some(false)), None);
    assert_eq!(d.state(5000, Some(false)), None);
    assert_eq!(d.state(6000, Some(false)), Some(DoorState::Closed));
}

#[test]
fn door_change_right_after_edge_is_reported() {
    // door confirmed closed, opens, then closes again at once
    let mut d = DoorSensor::new(0, Some(false));
    assert_eq!(d.state(1000, Some(true)), None);
    assert_eq!(d.state(2000, Some(true)), None);
    assert_eq!(d.state(3000, Some(true)), Some(DoorState::Opened));
    assert_eq!(d.state(4000, Some(false)), None);
    assert_eq!(d.state(5000, Some(false)), None);
    assert_eq!(d.state(6000, Some(false)), Some(DoorState::Closed));
}

#[test]
fn door_failed_read_counts_as_open() {
    assert!(DoorSensor::is_open(None));
    assert!(DoorSensor::is_open(Some(true)));
    assert!(DoorSensor::is_closed(Some(false)));
    assert!(!DoorSensor::is_closed(None));
}
