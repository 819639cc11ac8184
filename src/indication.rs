//! The two-LED view of the operating state: a steady pattern set on each
//! change of state, and a blink cadence driven by polling.
use vstd::prelude::*;
use crate::timer::{ticks_since, CounterType, MilliSeconds, Timer};

verus! {

/// One LED; the caller drives the pin to the level it reports.
pub struct Led {
    is_on: bool,
}

impl Led {
    /// Whether the LED is lit.
    pub closed spec fn lit(&self) -> bool {
        self.is_on
    }

    /// An LED that starts lit or dark.
    pub fn new(is_on: bool) -> (r: Led)
        ensures
            r.lit() == is_on,
    {
        Led { is_on }
    }

    /// Whether the LED is lit.
    pub fn is_on(&self) -> (r: bool)
        ensures
            r == self.lit(),
    {
        self.is_on
    }

    /// Flips the LED.
    pub fn toggle(&mut self)
        ensures
            final(self).lit() == !old(self).lit(),
    {
        self.is_on = !self.is_on;
    }

    /// Lights the LED.
    pub fn set_high(&mut self)
        ensures
            final(self).lit(),
    {
        self.is_on = true;
    }

    /// Darkens the LED.
    pub fn set_low(&mut self)
        ensures
            !final(self).lit(),
    {
        self.is_on = false;
    }
}

/// What the view shows.
#[derive(Clone, Copy, Debug, PartialEq, Eq, Structural)]
pub enum IndicationState {
    Nothing,
    Idle,
    IdleDoorClosed,
    Error,
    CheckBeforeArm,
    ReadyToArm,
    Armed,
}

/// The steady (red, green) pattern shown on entering a state.
pub open spec fn pattern(s: IndicationState) -> (bool, bool) {
    match s {
        IndicationState::Idle | IndicationState::ReadyToArm | IndicationState::CheckBeforeArm => (
            false,
            true,
        ),
        IndicationState::Armed => (true, true),
        _ => (false, false),
    }
}

/// The blink period of a state in milliseconds, and which LEDs (red, green)
/// it blinks; `None` for a steady state.
pub open spec fn blink(s: IndicationState) -> Option<(int, bool, bool)> {
    match s {
        IndicationState::IdleDoorClosed => Some((500, false, true)),
        IndicationState::Error => Some((1000, true, true)),
        IndicationState::CheckBeforeArm => Some((250, true, false)),
        IndicationState::ReadyToArm => Some((1000, true, false)),
        _ => None,
    }
}

/// Whether a blink of the state shown by `i` is due at `now`.
pub open spec fn blink_due(i: Indication, now: CounterType) -> bool {
    match blink(i.shown()) {
        Some((period, _, _)) => ticks_since(i.last_blink(), now) >= period,
        None => false,
    }
}

/// The red LED after polling `i` at `now`.
pub open spec fn blinked_red(i: Indication, now: CounterType) -> bool {
    match blink(i.shown()) {
        Some((_, r, _)) => i.red() != (blink_due(i, now) && r),
        None => i.red(),
    }
}

/// The green LED after polling `i` at `now`.
pub open spec fn blinked_green(i: Indication, now: CounterType) -> bool {
    match blink(i.shown()) {
        Some((_, _, g)) => i.green() != (blink_due(i, now) && g),
        None => i.green(),
    }
}

/// The tick of the last blink after polling `i` at `now`.
pub open spec fn blinked_mark(i: Indication, now: CounterType) -> CounterType {
    if blink_due(i, now) {
        now
    } else {
        i.last_blink()
    }
}

/// `i2` is the view that showed `shown` with the LEDs `red` and `green` and
/// last blinked at `mark`, after it was told to show `s`.
pub open spec fn shown_after(
    shown: IndicationState,
    red: bool,
    green: bool,
    mark: CounterType,
    s: IndicationState,
    i2: Indication,
) -> bool {
    &&& i2.shown() == s
    &&& i2.last_blink() == mark
    &&& if shown != s {
        (i2.red(), i2.green()) == pattern(s)
    } else {
        i2.red() == red && i2.green() == green
    }
}

/// The red and green LEDs and the state they show.
pub struct Indication {
    led_red: Led,
    led_green: Led,
    state: IndicationState,
    timer: Timer,
}

impl Indication {
    /// The state shown.
    pub closed spec fn shown(&self) -> IndicationState {
        self.state
    }

    /// Whether the red LED is lit.
    pub closed spec fn red(&self) -> bool {
        self.led_red.lit()
    }

    /// Whether the green LED is lit.
    pub closed spec fn green(&self) -> bool {
        self.led_green.lit()
    }

    /// The tick of the last blink.
    pub closed spec fn last_blink(&self) -> CounterType {
        self.timer@
    }

    /// A dark view that shows nothing.
    pub fn new(now: CounterType) -> (r: Indication)
        ensures
            r.shown() == IndicationState::Nothing,
            !r.red(),
            !r.green(),
            r.last_blink() == now,
    {
        Indication {
            led_red: Led::new(false),
            led_green: Led::new(false),
            state: IndicationState::Nothing,
            timer: Timer::new(now),
        }
    }

    /// Whether the red LED is lit.
    pub fn red_on(&self) -> (r: bool)
        ensures
            r == self.red(),
    {
        self.led_red.is_on()
    }

    /// Whether the green LED is lit.
    pub fn green_on(&self) -> (r: bool)
        ensures
            r == self.green(),
    {
        self.led_green.is_on()
    }

    /// Shows `state`; the LEDs take its steady pattern when it differs from
    /// the state shown.
    pub fn set_state(&mut self, state: IndicationState)
        ensures
            shown_after(
                old(self).shown(),
                old(self).red(),
                old(self).green(),
                old(self).last_blink(),
                state,
                *final(self),
            ),
    {
        if self.state != state {
            match state {
                IndicationState::Idle | IndicationState::ReadyToArm
                | IndicationState::CheckBeforeArm => {
                    self.led_red.set_low();
                    self.led_green.set_high();
                },
                IndicationState::Armed => {
                    self.led_red.set_high();
                    self.led_green.set_high();
                },
                IndicationState::Nothing | IndicationState::IdleDoorClosed
                | IndicationState::Error => {
                    self.led_red.set_low();
                    self.led_green.set_low();
                },
            }
        }
        self.state = state;
    }

    /// Drives the blink cadence of the state shown: when its period has
    /// passed since the last blink, its blinking LEDs flip.
    pub fn poll(&mut self, now: CounterType)
        ensures
            final(self).shown() == old(self).shown(),
            final(self).red() == blinked_red(*old(self), now),
            final(self).green() == blinked_green(*old(self), now),
            final(self).last_blink() == blinked_mark(*old(self), now),
    {
        match self.state {
            IndicationState::IdleDoorClosed => {
                if self.timer.every(now, MilliSeconds(500)) {
                    self.led_green.toggle();
                }
            },
            IndicationState::Error => {
                if self.timer.every(now, MilliSeconds(1000)) {
                    self.led_red.toggle();
                    self.led_green.toggle();
                }
            },
            IndicationState::CheckBeforeArm => {
                if self.timer.every(now, MilliSeconds(250)) {
                    self.led_red.toggle();
                }
            },
            IndicationState::ReadyToArm => {
                if self.timer.every(now, MilliSeconds(1000)) {
                    self.led_red.toggle();
                }
            },
            IndicationState::Nothing | IndicationState::Idle | IndicationState::Armed => {},
        }
    }
}

} // verus!
