use gsm_alarm::algorithm::{
    step, startup_state, AlgorithmState, Armed, Error, Event, MainLogic, ModemOp,
    Pending, Work, ALARM_TRIES,
};
use gsm_alarm::debounce::{Button, DoorSensor};
use gsm_alarm::indication::{Indication, IndicationState};
use gsm_alarm::modem::{Sim900, Sim900State};

fn machine(door_open: bool) -> MainLogic {
    MainLogic::new(
        Sim900::new(),
        Indication::new(0),
        Button::new(true, 0),
        DoorSensor::new(0, Some(door_open)),
    )
}

fn is_idle(s: AlgorithmState) -> bool {
    matches!(s, AlgorithmState::IdleState)
}

#[test]
fn check_sequence_pending_pending_success() {
    let mut m = machine(true);
    assert_eq!(m.check_op(), ModemOp::PowerOn);
    assert_eq!(m.check_online(true), None);
    assert_eq!(m.check_op(), ModemOp::Setup);
    assert_eq!(m.check_online(true), None);
    assert_eq!(m.check_op(), ModemOp::PowerOff);
    assert_eq!(m.check_online(true), Some(true));
    assert_eq!(m.check_op(), ModemOp::PowerOn);
}

#[test]
fn check_sequence_failure_resets() {
    let mut m = machine(true);
    assert_eq!(m.check_online(true), None);
    assert_eq!(m.check_online(false), Some(false));
    assert_eq!(m.check_op(), ModemOp::PowerOn);
    assert_eq!(m.check_online(false), Some(false));
    assert_eq!(m.check_op(), ModemOp::PowerOn);
}

#[test]
fn check_power_off_outcome_ignored() {
    let mut m = machine(true);
    m.check_online(true);
    m.check_online(true);
    assert_eq!(m.check_online(false), Some(true));
}

fn timeout_of(s: AlgorithmState) -> u16 {
    match s {
        AlgorithmState::ErrorState(e) => e.timeout.0,
        _ => panic!("not in error"),
    }
}

#[test]
fn backoff_grows_to_ceiling() {
    let mut s = AlgorithmState::ErrorState(Error::new(IndicationState::Idle, 0));
    let mut seen = vec![timeout_of(s)];
    for _ in 0..7 {
        s = step(s, Event::CheckCompleted(false), 0);
        seen.push(timeout_of(s));
    }
    assert_eq!(seen, vec![10, 20, 30, 40, 50, 60, 60, 60]);
}

#[test]
fn error_recovery_targets() {
    let cases = [
        (IndicationState::CheckBeforeArm, "check"),
        (IndicationState::ReadyToArm, "ready"),
        (IndicationState::Armed, "armed"),
        (IndicationState::IdleDoorClosed, "idle"),
        (IndicationState::Idle, "idle"),
    ];
    for (from, want) in cases {
        let s = step(AlgorithmState::ErrorState(Error::new(from, 0)), Event::CheckCompleted(true), 0);
        let got = match s {
            AlgorithmState::CheckState => "check",
            AlgorithmState::ReadyToArmState => "ready",
            AlgorithmState::ArmedState(a) => {
                assert_eq!(a.try_count, ALARM_TRIES);
                "armed"
            }
            AlgorithmState::IdleState => "idle",
            _ => "other",
        };
        assert_eq!(got, want);
    }
}

#[test]
fn transition_table() {
    assert!(matches!(step(AlgorithmState::IdleState, Event::ButtonPressed, 0), AlgorithmState::CheckState));
    assert!(matches!(step(AlgorithmState::IdleState, Event::DoorClosed, 0), AlgorithmState::IdleDoorClosedState));
    assert!(matches!(step(AlgorithmState::IdleState, Event::DoorOpened, 0), AlgorithmState::IdleState));
    assert!(matches!(step(AlgorithmState::IdleDoorClosedState, Event::DoorOpened, 0), AlgorithmState::IdleState));
    assert!(matches!(step(AlgorithmState::IdleDoorClosedState, Event::ButtonPressed, 0), AlgorithmState::CheckState));
    assert!(matches!(step(AlgorithmState::CheckState, Event::CheckCompleted(true), 0), AlgorithmState::ReadyToArmState));
    match step(AlgorithmState::CheckState, Event::CheckCompleted(false), 7) {
        AlgorithmState::ErrorState(e) => {
            assert_eq!(e.from_state, IndicationState::ReadyToArm);
            assert_eq!(e.timeout.0, 10);
            assert!(!e.flag_go_check);
        }
        _ => panic!("expected error"),
    }
    assert!(matches!(step(AlgorithmState::ReadyToArmState, Event::ButtonPressed, 0), AlgorithmState::IdleState));
    assert!(matches!(
        step(AlgorithmState::ReadyToArmState, Event::DoorClosed, 0),
        AlgorithmState::ArmedState(Armed { try_count: 3 })
    ));
    assert!(matches!(step(AlgorithmState::ArmedState(Armed::new()), Event::ButtonPressed, 0), AlgorithmState::IdleState));
    assert!(matches!(step(AlgorithmState::ArmedState(Armed::new()), Event::AlarmDone, 0), AlgorithmState::IdleState));
}

#[test]
fn startup_outcomes() {
    assert!(matches!(startup_state(false, true, 0), AlgorithmState::ErrorState(_)));
    assert!(matches!(startup_state(true, true, 0), AlgorithmState::ArmedState(_)));
    assert!(matches!(startup_state(true, false, 0), AlgorithmState::IdleState));
}

#[test]
fn error_poll_marks_recheck() {
    let mut e = Error::new(IndicationState::Idle, 0);
    assert!(!e.poll(9999));
    assert!(e.poll(10000));
    assert!(e.poll(10001));
}

/// Runs the startup check to its end with the given operation outcomes.
fn run_startup(m: &mut MainLogic, door_open: bool, outcomes: &[bool]) {
    let mut w = m.init();
    for ok in outcomes {
        assert!(matches!(w, Work::Modem(_)));
        w = m.resume(0, *ok, Some(door_open));
    }
    assert_eq!(w, Work::Nothing);
    assert_eq!(m.pending_work(), Pending::Nothing);
}

#[test]
fn end_to_end_failed_startup_recovers_to_idle() {
    let mut m = machine(true);
    run_startup(&mut m, true, &[false]);
    match m.current_state() {
        AlgorithmState::ErrorState(e) => assert_eq!(e.from_state, IndicationState::Idle),
        _ => panic!("expected error"),
    }
    assert_eq!(m.indication().red_on(), false);
    // before the recheck interval nothing happens
    assert_eq!(m.poll(9999, Some(true), Some(false)), Work::Nothing);
    // one recheck, one operation per tick
    assert_eq!(m.poll(10000, Some(true), Some(false)), Work::Modem(ModemOp::PowerOn));
    assert_eq!(m.resume(10000, true, Some(true)), Work::Nothing);
    assert_eq!(m.poll(10001, Some(true), Some(false)), Work::Modem(ModemOp::Setup));
    assert_eq!(m.resume(10001, true, Some(true)), Work::Nothing);
    assert_eq!(m.poll(10002, Some(true), Some(false)), Work::Modem(ModemOp::PowerOff));
    assert_eq!(m.resume(10002, true, Some(true)), Work::Nothing);
    assert!(is_idle(m.current_state()));
    // the door is closed, yet the machine is idle, not armed
    assert!(is_idle(m.current_state()));
    assert_eq!(m.indication().green_on(), true);
}

#[test]
fn startup_armed_when_door_closed() {
    let mut m = machine(false);
    run_startup(&mut m, false, &[true, true, true]);
    assert!(matches!(m.current_state(), AlgorithmState::ArmedState(Armed { try_count: 3 })));
    assert!(m.indication().red_on());
}

#[test]
fn machine_owns_modem_driver() {
    let mut m = machine(true);
    assert_eq!(m.sim900().get_state(), Sim900State::Unknown);
    assert!(m.sim900().is_ready());
}

#[test]
fn startup_idle_when_door_open() {
    let mut m = machine(true);
    run_startup(&mut m, true, &[true, true, true]);
    assert!(is_idle(m.current_state()));
}

#[test]
fn recheck_failure_waits_for_next_interval() {
    let mut m = machine(true);
    run_startup(&mut m, true, &[false]);
    assert_eq!(m.poll(10000, Some(true), Some(true)), Work::Modem(ModemOp::PowerOn));
    assert_eq!(m.resume(10000, false, Some(true)), Work::Nothing);
    assert_eq!(timeout_of(m.current_state()), 20);
    assert_eq!(m.poll(10001, Some(true), Some(true)), Work::Nothing);
    assert_eq!(m.poll(29999, Some(true), Some(true)), Work::Nothing);
    assert_eq!(m.poll(30000, Some(true), Some(true)), Work::Modem(ModemOp::PowerOn));
}

/// Presses the button: three low samples, one per button period.
fn press(m: &mut MainLogic, now: &mut u16, door: bool) {
    for _ in 0..3 {
        *now += 25;
        assert_eq!(m.poll(*now, Some(false), Some(door)), Work::Nothing);
    }
    *now += 25;
    m.poll(*now, Some(true), Some(door));
}

#[test]
fn end_to_end_arm_and_alarm_on_second_try() {
    let mut m = machine(true);
    run_startup(&mut m, true, &[true, true, true]);
    let mut now: u16 = 0;
    press(&mut m, &mut now, true);
    assert!(matches!(m.current_state(), AlgorithmState::CheckState));
    for (op, ok) in [(ModemOp::PowerOn, true), (ModemOp::Setup, true), (ModemOp::PowerOff, true)] {
        now += 1;
        assert_eq!(m.poll(now, Some(true), Some(true)), Work::Modem(op));
        assert_eq!(m.resume(now, ok, Some(true)), Work::Nothing);
    }
    assert!(matches!(m.current_state(), AlgorithmState::ReadyToArmState));
    // the door closes: three samples a second apart
    let mut armed = false;
    for _ in 0..4 {
        now += 1000;
        m.poll(now, Some(true), Some(false));
        if matches!(m.current_state(), AlgorithmState::ArmedState(Armed { try_count: 3 })) {
            armed = true;
            break;
        }
    }
    assert!(armed);
    // the door stays closed for one more sample, then opens
    now += 1000;
    assert_eq!(m.poll(now, Some(true), Some(false)), Work::Nothing);
    let mut w = Work::Nothing;
    for _ in 0..4 {
        now += 1000;
        w = m.poll(now, Some(true), Some(true));
        if w != Work::Nothing {
            break;
        }
    }
    assert_eq!(w, Work::Modem(ModemOp::PowerOn));
    // first attempt: the modem does not power on; it is power-cycled
    assert_eq!(m.resume(now, false, Some(true)), Work::Modem(ModemOp::PowerOff));
    assert_eq!(m.resume(now, true, Some(true)), Work::Modem(ModemOp::PowerOn));
    // second attempt succeeds
    assert_eq!(m.resume(now, true, Some(true)), Work::Modem(ModemOp::Setup));
    assert_eq!(m.resume(now, true, Some(true)), Work::Wait { ms: 10000 });
    assert_eq!(m.resume(now, true, Some(true)), Work::Modem(ModemOp::SendAlert));
    assert_eq!(m.resume(now, true, Some(true)), Work::Modem(ModemOp::PowerOff));
    match m.current_state() {
        AlgorithmState::ArmedState(a) => assert_eq!(ALARM_TRIES - a.try_count, 2),
        _ => panic!("expected armed during the alarm"),
    }
    assert_eq!(m.resume(now, true, Some(true)), Work::Nothing);
    assert!(is_idle(m.current_state()));
}

#[test]
fn alarm_gives_up_after_budget() {
    let mut m = machine(false);
    run_startup(&mut m, false, &[true, true, true]);
    let mut now: u16 = 0;
    let mut w = Work::Nothing;
    for _ in 0..4 {
        now += 1000;
        w = m.poll(now, Some(true), Some(true));
        if w != Work::Nothing {
            break;
        }
    }
    assert_eq!(w, Work::Modem(ModemOp::PowerOn));
    // attempt 1 fails at power-on, attempt 2 at configure, attempt 3 at power-on
    assert_eq!(m.resume(now, false, Some(true)), Work::Modem(ModemOp::PowerOff));
    assert_eq!(m.resume(now, true, Some(true)), Work::Modem(ModemOp::PowerOn));
    assert_eq!(m.resume(now, true, Some(true)), Work::Modem(ModemOp::Setup));
    assert_eq!(m.resume(now, false, Some(true)), Work::Modem(ModemOp::PowerOff));
    assert_eq!(m.resume(now, false, Some(true)), Work::Modem(ModemOp::PowerOn));
    assert_eq!(m.resume(now, false, Some(true)), Work::Modem(ModemOp::PowerOff));
    match m.current_state() {
        AlgorithmState::ArmedState(a) => assert_eq!(a.try_count, 0),
        _ => panic!("expected armed during the alarm"),
    }
    assert_eq!(m.resume(now, false, Some(true)), Work::Nothing);
    assert!(is_idle(m.current_state()));
}

#[test]
fn disarm_with_button() {
    let mut m = machine(false);
    run_startup(&mut m, false, &[true, true, true]);
    let mut now: u16 = 0;
    press(&mut m, &mut now, false);
    assert!(is_idle(m.current_state()));
}

#[test]
fn idle_door_closed_and_reopened() {
    let mut m = machine(true);
    run_startup(&mut m, true, &[true, true, true]);
    let mut now: u16 = 0;
    for _ in 0..3 {
        now += 1000;
        m.poll(now, Some(true), Some(false));
    }
    assert!(matches!(m.current_state(), AlgorithmState::IdleDoorClosedState));
    now += 1000;
    m.poll(now, Some(true), Some(false));
    for _ in 0..3 {
        now += 1000;
        m.poll(now, Some(true), Some(true));
    }
    assert!(is_idle(m.current_state()));
}

#[test]
fn registration_wait_is_configurable() {
    let mut m = machine(false);
    m.set_registration_wait(15000);
    run_startup(&mut m, false, &[true, true, true]);
    let mut now: u16 = 0;
    let mut w = Work::Nothing;
    for _ in 0..4 {
        now += 1000;
        w = m.poll(now, Some(true), Some(true));
        if w != Work::Nothing {
            break;
        }
    }
    assert_eq!(w, Work::Modem(ModemOp::PowerOn));
    assert_eq!(m.resume(now, true, Some(true)), Work::Modem(ModemOp::Setup));
    assert_eq!(m.resume(now, true, Some(true)), Work::Wait { ms: 15000 });
}

#[test]
fn startup_reads_door_at_end_of_check() {
    let mut m = machine(true);
    assert_eq!(m.init(), Work::Modem(ModemOp::PowerOn));
    // the door is open while the check runs and closed when it ends
    let mut w = m.resume(0, true, Some(true));
    assert_eq!(w, Work::Modem(ModemOp::Setup));
    w = m.resume(0, true, Some(true));
    assert_eq!(w, Work::Modem(ModemOp::PowerOff));
    assert_eq!(m.resume(0, true, Some(false)), Work::Nothing);
    assert!(matches!(m.current_state(), AlgorithmState::ArmedState(_)));
}

#[test]
fn ignored_event_leaves_view() {
    // idle ignores the door opening: the view, still dark before startup, stays so
    let mut m = machine(false);
    let mut now: u16 = 0;
    for _ in 0..3 {
        now += 1000;
        assert_eq!(m.poll(now, Some(true), Some(true)), Work::Nothing);
    }
    assert!(is_idle(m.current_state()));
    assert!(!m.indication().green_on());
    assert!(!m.indication().red_on());
}
