//! The security state machine: arms and disarms on the button, watches the
//! door, checks the modem link before arming and while in error, and raises
//! the alarm when an armed door opens. Modem operations and waits are work
//! that the caller performs and reports back.
use vstd::prelude::*;
use crate::debounce::{
    door_open, button_polled, button_press, door_change, door_polled, Button, DoorSensor, DoorState,
};
use crate::modem::Sim900;
use crate::indication::{
    blinked_green, blinked_mark, blinked_red, shown_after, Indication, IndicationState,
};
use crate::timer::{ticks_since, CounterType, Seconds, Timer};

verus! {

/// Alert attempts allowed once the alarm is raised.
pub const ALARM_TRIES: u8 = 3;

/// Recheck interval on first entering the error state, in seconds.
pub const BACKOFF_START_S: u16 = 10;

/// Growth of the recheck interval after each failed recheck, in seconds.
pub const BACKOFF_STEP_S: u16 = 10;

/// Ceiling of the recheck interval, in seconds.
pub const BACKOFF_MAX_S: u16 = 60;

/// Default wait for network registration before an alert is sent, in
/// milliseconds.
pub const REGISTRATION_SETTLE_MS: u16 = 10000;

/// The recheck interval after one more failed recheck: one step longer,
/// up to the ceiling.
pub open spec fn backoff(t: int) -> int {
    if t >= BACKOFF_MAX_S {
        t
    } else if t + BACKOFF_STEP_S <= BACKOFF_MAX_S {
        t + BACKOFF_STEP_S
    } else {
        BACKOFF_MAX_S as int
    }
}

/// The recheck interval after `k` consecutive failed rechecks.
pub open spec fn backoff_after(k: nat) -> int
    decreases k,
{
    if k == 0 {
        BACKOFF_START_S as int
    } else {
        backoff(backoff_after((k - 1) as nat))
    }
}

/// The recheck interval never shrinks, never passes its ceiling, and grows by
/// a fixed step from its start until it reaches the ceiling: after five
/// failures and later it is exactly the ceiling.
pub proof fn lemma_backoff_capped(k: nat)
    ensures
        backoff_after(k) <= backoff_after(k + 1),
        backoff_after(k) <= BACKOFF_MAX_S,
        backoff_after(k) == if 10 + 10 * k >= 60 { 60 } else { 10 + 10 * k },
        k >= 5 ==> backoff_after(k) == BACKOFF_MAX_S,
    decreases k,
{
    if k > 0 {
        lemma_backoff_capped((k - 1) as nat);
    }
}

/// A modem operation that the caller runs to its end.
#[derive(Clone, Copy, Debug, PartialEq, Eq, Structural)]
pub enum ModemOp {
    PowerOn,
    Setup,
    PowerOff,
    SendAlert,
}

/// What the caller is to do before the state machine can go on.
#[derive(Clone, Copy, Debug, PartialEq, Eq, Structural)]
pub enum Work {
    /// Nothing: the step is complete.
    Nothing,
    /// Run this modem operation and report whether it succeeded.
    Modem(ModemOp),
    /// Wait this many milliseconds, then report.
    Wait { ms: u16 },
}

/// The phase of the link check: which operation it runs next.
#[derive(Clone, Copy, Debug, PartialEq, Eq, Structural)]
pub enum CheckPhase {
    AwaitPowerOn,
    AwaitConfigure,
    AwaitPowerOff,
}

/// The operation that a check phase runs.
pub open spec fn check_op_of(p: CheckPhase) -> ModemOp {
    match p {
        CheckPhase::AwaitPowerOn => ModemOp::PowerOn,
        CheckPhase::AwaitConfigure => ModemOp::Setup,
        CheckPhase::AwaitPowerOff => ModemOp::PowerOff,
    }
}

/// The link check after an operation of phase `p` that ended with `ok`: the
/// next phase and, once the check is over, whether the link is good. A failed
/// power-on or configure ends it at once; power-off ends it with success,
/// whatever its outcome.
pub open spec fn check_step(p: CheckPhase, ok: bool) -> (CheckPhase, Option<bool>) {
    match p {
        CheckPhase::AwaitPowerOn => if ok {
            (CheckPhase::AwaitConfigure, None)
        } else {
            (CheckPhase::AwaitPowerOn, Some(false))
        },
        CheckPhase::AwaitConfigure => if ok {
            (CheckPhase::AwaitPowerOff, None)
        } else {
            (CheckPhase::AwaitPowerOn, Some(false))
        },
        CheckPhase::AwaitPowerOff => (CheckPhase::AwaitPowerOn, Some(true)),
    }
}

/// The armed state, with the alert attempts it has left.
#[derive(Clone, Copy, Debug, PartialEq, Eq, Structural)]
pub struct Armed {
    pub try_count: u8,
}

impl Armed {
    /// An armed state with the full budget of alert attempts.
    pub fn new() -> (r: Armed)
        ensures
            r.try_count == ALARM_TRIES,
    {
        Armed { try_count: ALARM_TRIES }
    }
}

/// The error state: where to return once the link is good again, how long
/// to wait between rechecks, and whether a recheck is due.
#[derive(Clone, Copy)]
pub struct Error {
    pub timer: Timer,
    pub timeout: Seconds,
    pub from_state: IndicationState,
    pub flag_go_check: bool,
}

impl Error {
    /// Whether the recheck interval stays within its range.
    pub open spec fn wf(&self) -> bool {
        self.timeout.0 <= BACKOFF_MAX_S
    }

    /// An error state entered at `now` that returns to `from_state`.
    pub fn new(from_state: IndicationState, now: CounterType) -> (r: Error)
        ensures
            r.wf(),
            r.timer@ == now,
            r.timeout.0 == BACKOFF_START_S,
            r.from_state == from_state,
            !r.flag_go_check,
    {
        Error {
            timer: Timer::new(now),
            timeout: Seconds(BACKOFF_START_S),
            from_state,
            flag_go_check: false,
        }
    }

    /// Marks a recheck due once the recheck interval has passed since the
    /// last mark; returns whether one is due.
    pub fn poll(&mut self, now: CounterType) -> (due: bool)
        requires
            old(self).wf(),
        ensures
            final(self).wf(),
            final(self).timeout == old(self).timeout,
            final(self).from_state == old(self).from_state,
            ({
                let elapsed = ticks_since(old(self).timer@, now) >= old(self).timeout.0 * 1000;
                &&& final(self).timer@ == if elapsed { now } else { old(self).timer@ }
                &&& final(self).flag_go_check == (old(self).flag_go_check || elapsed)
            }),
            due == final(self).flag_go_check,
    {
        if self.timer.every(now, self.timeout) {
            self.flag_go_check = true;
        }
        self.flag_go_check
    }
}

/// The operating state.
#[derive(Clone, Copy)]
pub enum AlgorithmState {
    IdleState,
    IdleDoorClosedState,
    CheckState,
    ReadyToArmState,
    ArmedState(Armed),
    ErrorState(Error),
}

/// What the state machine reacts to.
#[derive(Clone, Copy, Debug, PartialEq, Eq, Structural)]
pub enum Event {
    ButtonPressed,
    DoorOpened,
    DoorClosed,
    CheckCompleted(bool),
    AlarmDone,
}

/// The state that a good recheck returns to, by the state recorded on error.
pub open spec fn recovery(from: IndicationState) -> AlgorithmState {
    match from {
        IndicationState::CheckBeforeArm => AlgorithmState::CheckState,
        IndicationState::ReadyToArm => AlgorithmState::ReadyToArmState,
        IndicationState::Armed => AlgorithmState::ArmedState(Armed { try_count: ALARM_TRIES }),
        _ => AlgorithmState::IdleState,
    }
}

/// `t` is an error state entered at `now` that returns to `from`.
pub open spec fn fresh_error(t: AlgorithmState, from: IndicationState, now: CounterType) -> bool {
    t matches AlgorithmState::ErrorState(e) && e.timer@ == now && e.timeout.0 == BACKOFF_START_S
        && e.from_state == from && !e.flag_go_check
}

/// The transition table: event `e` at `now` takes state `s` to `t`. Events
/// that a state does not react to leave it as it is.
pub open spec fn transition(s: AlgorithmState, e: Event, now: CounterType, t: AlgorithmState) -> bool {
    match (s, e) {
        (AlgorithmState::IdleState, Event::ButtonPressed) => t == AlgorithmState::CheckState,
        (AlgorithmState::IdleState, Event::DoorClosed) => t == AlgorithmState::IdleDoorClosedState,
        (AlgorithmState::IdleDoorClosedState, Event::ButtonPressed) => t
            == AlgorithmState::CheckState,
        (AlgorithmState::IdleDoorClosedState, Event::DoorOpened) => t == AlgorithmState::IdleState,
        (AlgorithmState::CheckState, Event::CheckCompleted(ok)) => if ok {
            t == AlgorithmState::ReadyToArmState
        } else {
            fresh_error(t, IndicationState::ReadyToArm, now)
        },
        (AlgorithmState::ReadyToArmState, Event::ButtonPressed) => t == AlgorithmState::IdleState,
        (AlgorithmState::ReadyToArmState, Event::DoorClosed) => t == AlgorithmState::ArmedState(
            Armed { try_count: ALARM_TRIES },
        ),
        (AlgorithmState::ArmedState(_), Event::ButtonPressed) => t == AlgorithmState::IdleState,
        (AlgorithmState::ArmedState(_), Event::AlarmDone) => t == AlgorithmState::IdleState,
        (AlgorithmState::ErrorState(e), Event::CheckCompleted(ok)) => if ok {
            t == recovery(e.from_state)
        } else {
            t == AlgorithmState::ErrorState(
                Error { timeout: Seconds(backoff(e.timeout.0 as int) as u16), flag_go_check: false, ..e },
            )
        },
        _ => t == s,
    }
}

/// Whether state `s` reacts to event `e` with a transition that the view
/// shows. The error state's own bookkeeping after a failed recheck is no
/// such transition.
pub open spec fn reacts(s: AlgorithmState, e: Event) -> bool {
    match (s, e) {
        (AlgorithmState::IdleState, Event::ButtonPressed) => true,
        (AlgorithmState::IdleState, Event::DoorClosed) => true,
        (AlgorithmState::IdleDoorClosedState, Event::ButtonPressed) => true,
        (AlgorithmState::IdleDoorClosedState, Event::DoorOpened) => true,
        (AlgorithmState::CheckState, Event::CheckCompleted(_)) => true,
        (AlgorithmState::ReadyToArmState, Event::ButtonPressed) => true,
        (AlgorithmState::ReadyToArmState, Event::DoorClosed) => true,
        (AlgorithmState::ArmedState(_), Event::ButtonPressed) => true,
        (AlgorithmState::ArmedState(_), Event::AlarmDone) => true,
        (AlgorithmState::ErrorState(_), Event::CheckCompleted(ok)) => ok,
        _ => false,
    }
}

/// Whether state `s` reacts to event `e` with a transition that the view
/// shows.
pub fn reacts_to(s: &AlgorithmState, e: Event) -> (r: bool)
    ensures
        r == reacts(*s, e),
{
    match (s, e) {
        (AlgorithmState::IdleState, Event::ButtonPressed)
        | (AlgorithmState::IdleState, Event::DoorClosed)
        | (AlgorithmState::IdleDoorClosedState, Event::ButtonPressed)
        | (AlgorithmState::IdleDoorClosedState, Event::DoorOpened)
        | (AlgorithmState::CheckState, Event::CheckCompleted(_))
        | (AlgorithmState::ReadyToArmState, Event::ButtonPressed)
        | (AlgorithmState::ReadyToArmState, Event::DoorClosed)
        | (AlgorithmState::ArmedState(_), Event::ButtonPressed)
        | (AlgorithmState::ArmedState(_), Event::AlarmDone) => true,
        (AlgorithmState::ErrorState(_), Event::CheckCompleted(ok)) => ok,
        _ => false,
    }
}

/// The state after the startup check: an error state returning to idle when
/// the check failed, else armed when the door is closed, else idle.
pub open spec fn startup(check_ok: bool, door_closed: bool, now: CounterType, t: AlgorithmState) -> bool {
    if !check_ok {
        fresh_error(t, IndicationState::Idle, now)
    } else if door_closed {
        t == AlgorithmState::ArmedState(Armed { try_count: ALARM_TRIES })
    } else {
        t == AlgorithmState::IdleState
    }
}

/// The state stays within its ranges.
pub open spec fn state_wf(s: AlgorithmState) -> bool {
    s matches AlgorithmState::ErrorState(e) ==> e.wf()
}

/// What the view shows for a state.
pub open spec fn view_of(s: AlgorithmState) -> IndicationState {
    match s {
        AlgorithmState::IdleState => IndicationState::Idle,
        AlgorithmState::IdleDoorClosedState => IndicationState::IdleDoorClosed,
        AlgorithmState::CheckState => IndicationState::CheckBeforeArm,
        AlgorithmState::ReadyToArmState => IndicationState::ReadyToArm,
        AlgorithmState::ArmedState(_) => IndicationState::Armed,
        AlgorithmState::ErrorState(_) => IndicationState::Error,
    }
}

/// Applies event `e` at `now` to state `s`.
pub fn step(s: AlgorithmState, e: Event, now: CounterType) -> (t: AlgorithmState)
    requires
        state_wf(s),
    ensures
        transition(s, e, now, t),
        state_wf(t),
{
    match (s, e) {
        (AlgorithmState::IdleState, Event::ButtonPressed)
        | (AlgorithmState::IdleDoorClosedState, Event::ButtonPressed) => AlgorithmState::CheckState,
        (AlgorithmState::IdleState, Event::DoorClosed) => AlgorithmState::IdleDoorClosedState,
        (AlgorithmState::IdleDoorClosedState, Event::DoorOpened) => AlgorithmState::IdleState,
        (AlgorithmState::CheckState, Event::CheckCompleted(ok)) => {
            if ok {
                AlgorithmState::ReadyToArmState
            } else {
                AlgorithmState::ErrorState(Error::new(IndicationState::ReadyToArm, now))
            }
        },
        (AlgorithmState::ReadyToArmState, Event::ButtonPressed) => AlgorithmState::IdleState,
        (AlgorithmState::ReadyToArmState, Event::DoorClosed) => AlgorithmState::ArmedState(
            Armed::new(),
        ),
        (AlgorithmState::ArmedState(_), Event::ButtonPressed)
        | (AlgorithmState::ArmedState(_), Event::AlarmDone) => AlgorithmState::IdleState,
        (AlgorithmState::ErrorState(err), Event::CheckCompleted(ok)) => {
            if ok {
                match err.from_state {
                    IndicationState::CheckBeforeArm => AlgorithmState::CheckState,
                    IndicationState::ReadyToArm => AlgorithmState::ReadyToArmState,
                    IndicationState::Armed => AlgorithmState::ArmedState(Armed::new()),
                    _ => AlgorithmState::IdleState,
                }
            } else {
                let mut next = err;
                if next.timeout.0 < BACKOFF_MAX_S {
                    next.timeout = if next.timeout.0 + BACKOFF_STEP_S <= BACKOFF_MAX_S {
                        Seconds(next.timeout.0 + BACKOFF_STEP_S)
                    } else {
                        Seconds(BACKOFF_MAX_S)
                    };
                }
                next.flag_go_check = false;
                AlgorithmState::ErrorState(next)
            }
        },
        _ => s,
    }
}

/// The state after the startup check.
pub fn startup_state(check_ok: bool, door_closed: bool, now: CounterType) -> (t: AlgorithmState)
    ensures
        startup(check_ok, door_closed, now, t),
        state_wf(t),
{
    if !check_ok {
        AlgorithmState::ErrorState(Error::new(IndicationState::Idle, now))
    } else if door_closed {
        AlgorithmState::ArmedState(Armed::new())
    } else {
        AlgorithmState::IdleState
    }
}

/// Where the alarm sequence stands: which work it awaits.
#[derive(Clone, Copy, Debug, PartialEq, Eq, Structural)]
pub enum AlarmStage {
    PowerOn,
    Setup,
    Settle,
    Send,
    Recycle,
    PowerOff,
}

/// The start of an alert attempt with `tries` attempts left: the stage, the
/// attempts left after it, and the work it asks for. With none left the
/// modem is powered off.
pub open spec fn alarm_attempt(tries: u8) -> (AlarmStage, u8, Work) {
    if tries > 0 {
        (AlarmStage::PowerOn, (tries - 1) as u8, Work::Modem(ModemOp::PowerOn))
    } else {
        (AlarmStage::PowerOff, tries, Work::Modem(ModemOp::PowerOff))
    }
}

/// An abandoned attempt with `tries` attempts left: the modem is powered
/// off, to be powered on again by the next attempt, or for good when none is
/// left.
pub open spec fn alarm_retry(tries: u8) -> (AlarmStage, u8, Work) {
    if tries > 0 {
        (AlarmStage::Recycle, tries, Work::Modem(ModemOp::PowerOff))
    } else {
        (AlarmStage::PowerOff, tries, Work::Modem(ModemOp::PowerOff))
    }
}

/// The alarm sequence after stage `st` ended with `ok`, with `tries` attempts
/// left and a registration wait of `settle` milliseconds: the next stage
/// (`None` once the modem is off for good), the attempts left and the work
/// asked for. Any failure abandons the attempt and power-cycles the modem
/// before the next one; a sent alert ends the retries.
pub open spec fn alarm_step(st: AlarmStage, tries: u8, ok: bool, settle: u16) -> (
    Option<AlarmStage>,
    u8,
    Work,
) {
    let retry = (Some(alarm_retry(tries).0), alarm_retry(tries).1, alarm_retry(tries).2);
    match st {
        AlarmStage::PowerOn => if ok {
            (Some(AlarmStage::Setup), tries, Work::Modem(ModemOp::Setup))
        } else {
            retry
        },
        AlarmStage::Setup => if ok {
            (Some(AlarmStage::Settle), tries, Work::Wait { ms: settle })
        } else {
            retry
        },
        AlarmStage::Settle => (Some(AlarmStage::Send), tries, Work::Modem(ModemOp::SendAlert)),
        AlarmStage::Send => if ok {
            (Some(AlarmStage::PowerOff), tries, Work::Modem(ModemOp::PowerOff))
        } else {
            retry
        },
        AlarmStage::Recycle => (
            Some(alarm_attempt(tries).0),
            alarm_attempt(tries).1,
            alarm_attempt(tries).2,
        ),
        AlarmStage::PowerOff => (None, tries, Work::Nothing),
    }
}

/// The work that the state machine awaits from the caller.
#[derive(Clone, Copy, Debug, PartialEq, Eq, Structural)]
pub enum Pending {
    /// None.
    Nothing,
    /// The startup check, run to its end.
    Startup,
    /// One operation of the link check.
    Check,
    /// The alarm sequence.
    Alarm(AlarmStage),
}

/// The event that a tick's input edges raise in a state that waits on them:
/// a press first, else a door change.
pub open spec fn input_event(pressed: bool, change: Option<DoorState>) -> Option<Event> {
    if pressed {
        Some(Event::ButtonPressed)
    } else {
        match change {
            Some(DoorState::Opened) => Some(Event::DoorOpened),
            Some(DoorState::Closed) => Some(Event::DoorClosed),
            None => None,
        }
    }
}

/// From its first phase, a link check whose power-on, configure and
/// power-off all succeed is pending twice, then succeeds, and is back at its
/// first phase.
pub proof fn lemma_check_sequence_succeeds()
    ensures
        check_step(CheckPhase::AwaitPowerOn, true) == (CheckPhase::AwaitConfigure, None::<bool>),
        check_step(CheckPhase::AwaitConfigure, true) == (CheckPhase::AwaitPowerOff, None::<bool>),
        check_step(CheckPhase::AwaitPowerOff, true) == (CheckPhase::AwaitPowerOn, Some(true)),
{
}

/// A failed startup check leads to an error state that returns to idle,
/// whatever the door; one good recheck then leads to idle, not armed.
pub proof fn lemma_failed_startup_recovers_to_idle(
    door_closed: bool,
    now: CounterType,
    later: CounterType,
    t: AlgorithmState,
    t2: AlgorithmState,
)
    requires
        startup(false, door_closed, now, t),
        transition(t, Event::CheckCompleted(true), later, t2),
    ensures
        t matches AlgorithmState::ErrorState(e) && e.from_state == IndicationState::Idle,
        t2 == AlgorithmState::IdleState,
{
}

/// A closed door arms a machine that is ready to arm, with the full budget
/// of alert attempts. When the first attempt fails to power the modem on,
/// the modem is power-cycled, and the second attempt goes through: the alarm
/// uses exactly two attempts, powers the modem off, and the machine ends idle.
pub proof fn lemma_alarm_on_second_try(
    now: CounterType,
    settle: u16,
    t: AlgorithmState,
    t2: AlgorithmState,
)
    requires
        transition(AlgorithmState::ReadyToArmState, Event::DoorClosed, now, t),
        transition(t, Event::AlarmDone, now, t2),
    ensures
        t == AlgorithmState::ArmedState(Armed { try_count: ALARM_TRIES }),
        ({
            let (s1, n1, w1) = alarm_attempt(ALARM_TRIES);
            let (s2, n2, w2) = alarm_step(s1, n1, false, settle);
            let (s3, n3, w3) = alarm_step(s2->Some_0, n2, true, settle);
            let (s4, n4, w4) = alarm_step(s3->Some_0, n3, true, settle);
            let (s5, n5, w5) = alarm_step(s4->Some_0, n4, true, settle);
            let (s6, n6, w6) = alarm_step(s5->Some_0, n5, true, settle);
            let (s7, n7, w7) = alarm_step(s6->Some_0, n6, true, settle);
            let (s8, n8, w8) = alarm_step(s7->Some_0, n7, true, settle);
            &&& w1 == Work::Modem(ModemOp::PowerOn)
            &&& w2 == Work::Modem(ModemOp::PowerOff)
            &&& w3 == Work::Modem(ModemOp::PowerOn)
            &&& w4 == Work::Modem(ModemOp::Setup)
            &&& w5 == Work::Wait { ms: settle }
            &&& w6 == Work::Modem(ModemOp::SendAlert)
            &&& w7 == Work::Modem(ModemOp::PowerOff)
            &&& s8 is None && w8 == Work::Nothing
            &&& ALARM_TRIES - n8 == 2
        }),
        t2 == AlgorithmState::IdleState,
{
}

/// How far the alarm sequence at stage `st` with `tries` attempts left is
/// from its end, in steps at most.
pub open spec fn alarm_measure(st: AlarmStage, tries: u8) -> int {
    tries * 7 + match st {
        AlarmStage::PowerOn => 5int,
        AlarmStage::Setup => 4int,
        AlarmStage::Settle => 3int,
        AlarmStage::Send => 2int,
        AlarmStage::Recycle => 1int,
        AlarmStage::PowerOff => 0int,
    }
}

/// The alarm sequence always runs to its end, whatever the outcomes of its
/// work: every step brings it closer, it ends only after powering the modem
/// off, and once it ends the armed machine returns to idle. Its first stage
/// is within `7 * tries + 5` steps of the end.
pub proof fn lemma_alarm_terminates(
    st: AlarmStage,
    tries: u8,
    ok: bool,
    settle: u16,
    now: CounterType,
    t: AlgorithmState,
)
    requires
        transition(AlgorithmState::ArmedState(Armed { try_count: tries }), Event::AlarmDone, now, t),
    ensures
        alarm_step(st, tries, ok, settle).0 matches Some(next) ==> 0 <= alarm_measure(
            next,
            alarm_step(st, tries, ok, settle).1,
        ) < alarm_measure(st, tries),
        alarm_step(st, tries, ok, settle).0 is None <==> st == AlarmStage::PowerOff,
        alarm_measure(alarm_attempt(tries).0, alarm_attempt(tries).1) <= 7 * tries + 5,
        t == AlgorithmState::IdleState,
{
}

/// The security state machine with the modem driver, the inputs and the view
/// that it owns.
pub struct MainLogic {
    sim900: Sim900,
    indication: Indication,
    power_button: Button,
    door_sensor: DoorSensor,
    check_state: CheckPhase,
    current_state: AlgorithmState,
    pending: Pending,
    registration_wait_ms: u16,
}

impl MainLogic {
    /// The operating state.
    pub closed spec fn state(&self) -> AlgorithmState {
        self.current_state
    }

    /// The phase of the link check.
    pub closed spec fn phase(&self) -> CheckPhase {
        self.check_state
    }

    /// The work awaited from the caller.
    pub closed spec fn pending(&self) -> Pending {
        self.pending
    }

    /// The wait for network registration before an alert, in milliseconds.
    pub closed spec fn registration_wait(&self) -> u16 {
        self.registration_wait_ms
    }

    /// The modem driver.
    pub closed spec fn modem(&self) -> Sim900 {
        self.sim900
    }

    /// The power button.
    pub closed spec fn button(&self) -> Button {
        self.power_button
    }

    /// The door sensor.
    pub closed spec fn door(&self) -> DoorSensor {
        self.door_sensor
    }

    /// The view.
    pub closed spec fn view(&self) -> Indication {
        self.indication
    }

    /// The parts stay consistent with each other.
    pub open spec fn wf(&self) -> bool {
        &&& self.button().wf()
        &&& self.door().wf()
        &&& state_wf(self.state())
        &&& self.pending() is Startup ==> self.state() is IdleState
        &&& self.pending() is Check ==> (self.state() is CheckState || self.state() is ErrorState)
        &&& self.pending() is Alarm ==> self.state() is ArmedState
    }

    /// A machine in the idle state, with the link check at its first phase.
    pub fn new(
        sim900: Sim900,
        indication: Indication,
        power_button: Button,
        door_sensor: DoorSensor,
    ) -> (r: MainLogic)
        requires
            power_button.wf(),
            door_sensor.wf(),
        ensures
            r.wf(),
            r.state() == AlgorithmState::IdleState,
            r.phase() == CheckPhase::AwaitPowerOn,
            r.pending() == Pending::Nothing,
            r.button() == power_button,
            r.door() == door_sensor,
            r.view() == indication,
            r.modem() == sim900,
            r.registration_wait() == REGISTRATION_SETTLE_MS,
    {
        MainLogic {
            sim900,
            indication,
            power_button,
            door_sensor,
            check_state: CheckPhase::AwaitPowerOn,
            current_state: AlgorithmState::IdleState,
            pending: Pending::Nothing,
            registration_wait_ms: REGISTRATION_SETTLE_MS,
        }
    }

    /// Sets the wait for network registration before an alert is sent.
    pub fn set_registration_wait(&mut self, ms: u16)
        ensures
            final(self).registration_wait() == ms,
            final(self).state() == old(self).state(),
            final(self).phase() == old(self).phase(),
            final(self).pending() == old(self).pending(),
            final(self).button() == old(self).button(),
            final(self).door() == old(self).door(),
            final(self).view() == old(self).view(),
            final(self).modem() == old(self).modem(),
    {
        self.registration_wait_ms = ms;
    }

    /// The operating state.
    pub fn current_state(&self) -> (r: AlgorithmState)
        ensures
            r == self.state(),
    {
        self.current_state
    }

    /// The work awaited from the caller.
    pub fn pending_work(&self) -> (r: Pending)
        ensures
            r == self.pending(),
    {
        self.pending
    }

    /// The modem driver, for the caller to perform the operations asked for.
    pub fn sim900(&mut self) -> (r: &mut Sim900)
        ensures
            *r == old(self).modem(),
            final(self).modem() == *final(r),
            final(self).registration_wait() == old(self).registration_wait(),
            final(self).state() == old(self).state(),
            final(self).phase() == old(self).phase(),
            final(self).pending() == old(self).pending(),
            final(self).button() == old(self).button(),
            final(self).door() == old(self).door(),
            final(self).view() == old(self).view(),
    {
        &mut self.sim900
    }

    /// The view, whose LEDs the caller drives.
    pub fn indication(&self) -> (r: &Indication)
        ensures
            *r == self.view(),
    {
        &self.indication
    }

    /// The modem operation that the link check runs next.
    pub fn check_op(&self) -> (r: ModemOp)
        ensures
            r == check_op_of(self.phase()),
    {
        match self.check_state {
            CheckPhase::AwaitPowerOn => ModemOp::PowerOn,
            CheckPhase::AwaitConfigure => ModemOp::Setup,
            CheckPhase::AwaitPowerOff => ModemOp::PowerOff,
        }
    }

    /// Advances the link check by the outcome `op_ok` of the operation its
    /// phase ran: `None` while it goes on, else whether the link is good.
    pub fn check_online(&mut self, op_ok: bool) -> (r: Option<bool>)
        ensures
            (final(self).phase(), r) == check_step(old(self).phase(), op_ok),
            final(self).state() == old(self).state(),
            final(self).pending() == old(self).pending(),
            final(self).button() == old(self).button(),
            final(self).modem() == old(self).modem(),
            final(self).registration_wait() == old(self).registration_wait(),
            final(self).door() == old(self).door(),
            final(self).view() == old(self).view(),
    {
        match self.check_state {
            CheckPhase::AwaitPowerOn => {
                if op_ok {
                    self.check_state = CheckPhase::AwaitConfigure;
                    None
                } else {
                    self.check_state = CheckPhase::AwaitPowerOn;
                    Some(false)
                }
            },
            CheckPhase::AwaitConfigure => {
                if op_ok {
                    self.check_state = CheckPhase::AwaitPowerOff;
                    None
                } else {
                    self.check_state = CheckPhase::AwaitPowerOn;
                    Some(false)
                }
            },
            CheckPhase::AwaitPowerOff => {
                self.check_state = CheckPhase::AwaitPowerOn;
                Some(true)
            },
        }
    }

    /// Shows the operating state on the view.
    fn update_view(&mut self)
        ensures
            shown_after(
                old(self).view().shown(),
                old(self).view().red(),
                old(self).view().green(),
                old(self).view().last_blink(),
                view_of(old(self).state()),
                final(self).view(),
            ),
            final(self).state() == old(self).state(),
            final(self).phase() == old(self).phase(),
            final(self).pending() == old(self).pending(),
            final(self).button() == old(self).button(),
            final(self).modem() == old(self).modem(),
            final(self).registration_wait() == old(self).registration_wait(),
            final(self).door() == old(self).door(),
    {
        let v = match self.current_state {
            AlgorithmState::IdleState => IndicationState::Idle,
            AlgorithmState::IdleDoorClosedState => IndicationState::IdleDoorClosed,
            AlgorithmState::CheckState => IndicationState::CheckBeforeArm,
            AlgorithmState::ReadyToArmState => IndicationState::ReadyToArm,
            AlgorithmState::ArmedState(_) => IndicationState::Armed,
            AlgorithmState::ErrorState(_) => IndicationState::Error,
        };
        self.indication.set_state(v);
    }

    /// Applies an event to the operating state and shows the result.
    fn apply(&mut self, e: Event, now: CounterType)
        requires
            old(self).wf(),
            old(self).pending() == Pending::Nothing,
        ensures
            final(self).wf(),
            transition(old(self).state(), e, now, final(self).state()),
            reacts(old(self).state(), e) ==> shown_after(
                old(self).view().shown(),
                old(self).view().red(),
                old(self).view().green(),
                old(self).view().last_blink(),
                view_of(final(self).state()),
                final(self).view(),
            ),
            !reacts(old(self).state(), e) ==> final(self).view() == old(self).view(),
            final(self).phase() == old(self).phase(),
            final(self).pending() == old(self).pending(),
            final(self).button() == old(self).button(),
            final(self).modem() == old(self).modem(),
            final(self).registration_wait() == old(self).registration_wait(),
            final(self).door() == old(self).door(),
    {
        let shown = reacts_to(&self.current_state, e);
        self.current_state = step(self.current_state, e, now);
        if shown {
            self.update_view();
        }
    }

    /// Begins the startup check, when the machine is idle: it runs to its
    /// end before the machine settles, and the door as read then decides
    /// between idle and armed. Otherwise there is nothing to do.
    pub fn init(&mut self) -> (w: Work)
        requires
            old(self).wf(),
            old(self).pending() == Pending::Nothing,
        ensures
            final(self).wf(),
            final(self).state() == old(self).state(),
            final(self).phase() == old(self).phase(),
            final(self).button() == old(self).button(),
            final(self).modem() == old(self).modem(),
            final(self).registration_wait() == old(self).registration_wait(),
            final(self).door() == old(self).door(),
            final(self).view() == old(self).view(),
            old(self).state() is IdleState ==> final(self).pending() == Pending::Startup && w
                == Work::Modem(check_op_of(old(self).phase())),
            !(old(self).state() is IdleState) ==> final(self).pending() == Pending::Nothing && w
                == Work::Nothing,
    {
        if let AlgorithmState::IdleState = self.current_state {
            self.pending = Pending::Startup;
            Work::Modem(self.check_op())
        } else {
            Work::Nothing
        }
    }

    /// Starts an alert attempt, or powers the modem off when none is left.
    fn next_attempt(&mut self, tries: u8) -> (w: Work)
        requires
            old(self).wf(),
            old(self).state() is ArmedState,
        ensures
            final(self).wf(),
            final(self).state() == AlgorithmState::ArmedState(Armed { try_count: alarm_attempt(tries).1 }),
            final(self).pending() == Pending::Alarm(alarm_attempt(tries).0),
            w == alarm_attempt(tries).2,
            final(self).phase() == old(self).phase(),
            final(self).button() == old(self).button(),
            final(self).modem() == old(self).modem(),
            final(self).registration_wait() == old(self).registration_wait(),
            final(self).door() == old(self).door(),
            final(self).view() == old(self).view(),
    {
        if tries > 0 {
            self.current_state = AlgorithmState::ArmedState(Armed { try_count: tries - 1 });
            self.pending = Pending::Alarm(AlarmStage::PowerOn);
            Work::Modem(ModemOp::PowerOn)
        } else {
            self.current_state = AlgorithmState::ArmedState(Armed { try_count: tries });
            self.pending = Pending::Alarm(AlarmStage::PowerOff);
            Work::Modem(ModemOp::PowerOff)
        }
    }

    /// Abandons the current alert attempt: the modem is powered off, before
    /// the next attempt or for good.
    fn abandon_attempt(&mut self, tries: u8) -> (w: Work)
        requires
            old(self).wf(),
            old(self).state() == AlgorithmState::ArmedState(Armed { try_count: tries }),
        ensures
            final(self).wf(),
            final(self).state() == old(self).state(),
            final(self).pending() == Pending::Alarm(alarm_retry(tries).0),
            w == alarm_retry(tries).2,
            final(self).phase() == old(self).phase(),
            final(self).button() == old(self).button(),
            final(self).modem() == old(self).modem(),
            final(self).registration_wait() == old(self).registration_wait(),
            final(self).door() == old(self).door(),
            final(self).view() == old(self).view(),
    {
        if tries > 0 {
            self.pending = Pending::Alarm(AlarmStage::Recycle);
        } else {
            self.pending = Pending::Alarm(AlarmStage::PowerOff);
        }
        Work::Modem(ModemOp::PowerOff)
    }

    /// One tick of the machine at `now`, with the button and door pins read
    /// as `button_level` and `door_level` (`None`: the read failed). The view
    /// blinks; then the state acts: checking asks for the next operation of
    /// the link check; the error state asks for it once a recheck is due; the
    /// other states sample the button and, if it raised nothing, the door,
    /// and apply the event raised. A door opening while armed raises the
    /// alarm instead, which asks for its first work.
    pub fn poll(
        &mut self,
        now: CounterType,
        button_level: Option<bool>,
        door_level: Option<bool>,
    ) -> (w: Work)
        requires
            old(self).wf(),
            old(self).pending() == Pending::Nothing,
        ensures
            final(self).wf(),
            final(self).phase() == old(self).phase(),
            final(self).registration_wait() == old(self).registration_wait(),
            ({
                let s = old(self).state();
                let v = old(self).view();
                let red = blinked_red(v, now);
                let green = blinked_green(v, now);
                let mark = blinked_mark(v, now);
                let unchanged_view = final(self).view().shown() == v.shown() && final(self).view().red()
                    == red && final(self).view().green() == green && final(self).view().last_blink()
                    == mark;
                match s {
                    AlgorithmState::CheckState => {
                        &&& final(self).state() == s
                        &&& final(self).pending() == Pending::Check
                        &&& w == Work::Modem(check_op_of(old(self).phase()))
                        &&& final(self).button() == old(self).button()
                        &&& final(self).door() == old(self).door()
                        &&& final(self).modem() == old(self).modem()
                        &&& unchanged_view
                    },
                    AlgorithmState::ErrorState(e) => {
                        let elapsed = ticks_since(e.timer@, now) >= e.timeout.0 * 1000;
                        let due = e.flag_go_check || elapsed;
                        &&& final(self).state() matches AlgorithmState::ErrorState(e2) && e2.timer@ == (
                        if elapsed {
                            now
                        } else {
                            e.timer@
                        }) && e2.timeout == e.timeout && e2.from_state == e.from_state
                            && e2.flag_go_check == due
                        &&& final(self).pending() == if due {
                            Pending::Check
                        } else {
                            Pending::Nothing
                        }
                        &&& w == if due {
                            Work::Modem(check_op_of(old(self).phase()))
                        } else {
                            Work::Nothing
                        }
                        &&& final(self).button() == old(self).button()
                        &&& final(self).door() == old(self).door()
                        &&& final(self).modem() == old(self).modem()
                        &&& unchanged_view
                    },
                    _ => {
                        let pressed = button_press(old(self).button(), now, button_level);
                        let change = if pressed {
                            None
                        } else {
                            door_change(old(self).door(), now, door_level)
                        };
                        &&& button_polled(
                            old(self).button(),
                            now,
                            button_level,
                            final(self).button(),
                            if pressed {
                                Some(true)
                            } else {
                                None
                            },
                        )
                        &&& final(self).modem() == old(self).modem()
                        &&& pressed ==> final(self).door() == old(self).door()
                        &&& !pressed ==> door_polled(
                            old(self).door(),
                            now,
                            door_level,
                            final(self).door(),
                            change,
                        )
                        &&& if s is ArmedState && change == Some(DoorState::Opened) {
                            let (stage, tries, work) = alarm_attempt(s->ArmedState_0.try_count);
                            &&& final(self).state() == AlgorithmState::ArmedState(
                                Armed { try_count: tries },
                            )
                            &&& final(self).pending() == Pending::Alarm(stage)
                            &&& w == work
                            &&& unchanged_view
                        } else {
                            &&& final(self).pending() == Pending::Nothing
                            &&& w == Work::Nothing
                            &&& match input_event(pressed, change) {
                                Some(ev) => transition(s, ev, now, final(self).state()) && if reacts(
                                    s,
                                    ev,
                                ) {
                                    shown_after(
                                        v.shown(),
                                        red,
                                        green,
                                        mark,
                                        view_of(final(self).state()),
                                        final(self).view(),
                                    )
                                } else {
                                    unchanged_view
                                },
                                None => final(self).state() == s && unchanged_view,
                            }
                        }
                    },
                }
            }),
    {
        self.indication.poll(now);
        match self.current_state {
            AlgorithmState::CheckState => {
                self.pending = Pending::Check;
                Work::Modem(self.check_op())
            },
            AlgorithmState::ErrorState(e) => {
                let mut err = e;
                let due = err.poll(now);
                self.current_state = AlgorithmState::ErrorState(err);
                if due {
                    self.pending = Pending::Check;
                    Work::Modem(self.check_op())
                } else {
                    Work::Nothing
                }
            },
            AlgorithmState::ArmedState(armed) => {
                if let Some(true) = self.power_button.is_pressed(now, button_level) {
                    self.apply(Event::ButtonPressed, now);
                    Work::Nothing
                } else {
                    match self.door_sensor.state(now, door_level) {
                        Some(DoorState::Opened) => self.next_attempt(armed.try_count),
                        Some(DoorState::Closed) => {
                            self.apply(Event::DoorClosed, now);
                            Work::Nothing
                        },
                        None => Work::Nothing,
                    }
                }
            },
            _ => {
                if let Some(true) = self.power_button.is_pressed(now, button_level) {
                    self.apply(Event::ButtonPressed, now);
                } else {
                    match self.door_sensor.state(now, door_level) {
                        Some(DoorState::Opened) => self.apply(Event::DoorOpened, now),
                        Some(DoorState::Closed) => self.apply(Event::DoorClosed, now),
                        None => {},
                    }
                }
                Work::Nothing
            },
        }
    }

    /// Takes the outcome `ok` of the work last asked for, at `now`, with the
    /// door pin read as `door_level`, and goes on. The startup check asks for
    /// its next operation until it ends, then settles the state by its
    /// verdict and the door. The link check takes one operation per tick and
    /// applies its verdict once it ends. The alarm sequence asks for its next
    /// work until the modem is off for good, then the machine returns to idle.
    pub fn resume(&mut self, now: CounterType, ok: bool, door_level: Option<bool>) -> (w: Work)
        requires
            old(self).wf(),
            old(self).pending() != Pending::Nothing,
        ensures
            final(self).wf(),
            final(self).button() == old(self).button(),
            final(self).modem() == old(self).modem(),
            final(self).registration_wait() == old(self).registration_wait(),
            final(self).door() == old(self).door(),
            ({
                let s = old(self).state();
                let v = old(self).view();
                let shows_new = shown_after(
                    v.shown(),
                    v.red(),
                    v.green(),
                    v.last_blink(),
                    view_of(final(self).state()),
                    final(self).view(),
                );
                let (phase, verdict) = check_step(old(self).phase(), ok);
                match old(self).pending() {
                    Pending::Startup => {
                        &&& final(self).phase() == phase
                        &&& match verdict {
                            None => final(self).state() == s && final(self).pending()
                                == old(self).pending() && w == Work::Modem(check_op_of(phase))
                                && final(self).view() == v,
                            Some(good) => startup(
                                good,
                                !door_open(door_level),
                                now,
                                final(self).state(),
                            ) && shows_new && final(self).pending() == Pending::Nothing && w
                                == Work::Nothing,
                        }
                    },
                    Pending::Check => {
                        &&& final(self).phase() == phase
                        &&& final(self).pending() == Pending::Nothing
                        &&& w == Work::Nothing
                        &&& match verdict {
                            None => final(self).state() == s && final(self).view() == v,
                            Some(good) => transition(
                                s,
                                Event::CheckCompleted(good),
                                now,
                                final(self).state(),
                            ) && if reacts(s, Event::CheckCompleted(good)) {
                                shows_new
                            } else {
                                final(self).view() == v
                            },
                        }
                    },
                    Pending::Alarm(stage) => {
                        let (next, tries, work) = alarm_step(
                            stage,
                            s->ArmedState_0.try_count,
                            ok,
                            old(self).registration_wait(),
                        );
                        &&& final(self).phase() == old(self).phase()
                        &&& match next {
                            Some(st) => final(self).state() == AlgorithmState::ArmedState(
                                Armed { try_count: tries },
                            ) && final(self).pending() == Pending::Alarm(st) && w == work
                                && final(self).view() == v,
                            None => transition(s, Event::AlarmDone, now, final(self).state())
                                && shows_new && final(self).pending() == Pending::Nothing && w
                                == Work::Nothing,
                        }
                    },
                    Pending::Nothing => false,
                }
            }),
    {
        match self.pending {
            Pending::Startup => {
                match self.check_online(ok) {
                    None => Work::Modem(self.check_op()),
                    Some(good) => {
                        self.current_state = startup_state(
                            good,
                            DoorSensor::is_closed(door_level),
                            now,
                        );
                        self.pending = Pending::Nothing;
                        self.update_view();
                        Work::Nothing
                    },
                }
            },
            Pending::Check => {
                self.pending = Pending::Nothing;
                match self.check_online(ok) {
                    None => {},
                    Some(good) => self.apply(Event::CheckCompleted(good), now),
                }
                Work::Nothing
            },
            Pending::Alarm(stage) => {
                let tries = match self.current_state {
                    AlgorithmState::ArmedState(a) => a.try_count,
                    _ => 0,
                };
                match stage {
                    AlarmStage::PowerOn => {
                        if ok {
                            self.pending = Pending::Alarm(AlarmStage::Setup);
                            Work::Modem(ModemOp::Setup)
                        } else {
                            self.abandon_attempt(tries)
                        }
                    },
                    AlarmStage::Setup => {
                        if ok {
                            self.pending = Pending::Alarm(AlarmStage::Settle);
                            Work::Wait { ms: self.registration_wait_ms }
                        } else {
                            self.abandon_attempt(tries)
                        }
                    },
                    AlarmStage::Settle => {
                        self.pending = Pending::Alarm(AlarmStage::Send);
                        Work::Modem(ModemOp::SendAlert)
                    },
                    AlarmStage::Send => {
                        if ok {
                            self.pending = Pending::Alarm(AlarmStage::PowerOff);
                            Work::Modem(ModemOp::PowerOff)
                        } else {
                            self.abandon_attempt(tries)
                        }
                    },
                    AlarmStage::Recycle => self.next_attempt(tries),
                    AlarmStage::PowerOff => {
                        self.pending = Pending::Nothing;
                        self.apply(Event::AlarmDone, now);
                        Work::Nothing
                    },
                }
            },
            Pending::Nothing => Work::Nothing,
        }
    }
}

} // verus!
