//! Debounced digital inputs: a counter that confirms a level change only after
//! a run of samples that disagree with the confirmed level, and the button and
//! door sensor built on it.
use vstd::prelude::*;
use crate::timer::{ticks_since, CounterType, MilliSeconds, Timer};

verus! {

/// Consecutive disagreeing samples needed to confirm a change.
pub const DEBOUNCE_MAX: u8 = 3;

/// Counter value after one sample, from counter value `c`.
pub open spec fn counter_step(c: int, agrees: bool) -> int {
    if agrees {
        DEBOUNCE_MAX as int
    } else if c > 0 {
        c - 1
    } else {
        0
    }
}

/// Whether one sample, taken at counter value `c`, reports an edge.
pub open spec fn edge_step(c: int, agrees: bool) -> bool {
    !agrees && c == 1
}

/// Counter value after the samples `flags` (true: the sample agreed with the
/// confirmed level), starting from a freshly reset counter.
pub open spec fn counter_after(flags: Seq<bool>) -> int
    decreases flags.len(),
{
    if flags.len() == 0 {
        DEBOUNCE_MAX as int
    } else {
        counter_step(counter_after(flags.drop_last()), flags.last())
    }
}

/// Whether the last of the samples `flags` reports an edge.
pub open spec fn edge_after(flags: Seq<bool>) -> bool {
    flags.len() > 0 && edge_step(counter_after(flags.drop_last()), flags.last())
}

/// Length of the run of disagreeing samples that ends `flags`.
pub open spec fn trailing_disagreements(flags: Seq<bool>) -> nat
    decreases flags.len(),
{
    if flags.len() == 0 || flags.last() {
        0
    } else {
        trailing_disagreements(flags.drop_last()) + 1
    }
}

/// The counter always sits at the maximum less the current run of
/// disagreeing samples, and stops at zero.
pub proof fn lemma_counter_tracks_run(flags: Seq<bool>)
    ensures
        counter_after(flags) == if trailing_disagreements(flags) >= DEBOUNCE_MAX as nat {
            0
        } else {
            DEBOUNCE_MAX as int - trailing_disagreements(flags)
        },
    decreases flags.len(),
{
    if flags.len() > 0 {
        lemma_counter_tracks_run(flags.drop_last());
    }
}

/// A counter reports an edge exactly on the sample that completes a run of
/// `DEBOUNCE_MAX` consecutive disagreeing samples since the last agreeing one.
pub proof fn lemma_edge_iff_full_run(flags: Seq<bool>)
    requires
        flags.len() > 0,
    ensures
        edge_after(flags) <==> trailing_disagreements(flags) == DEBOUNCE_MAX as nat,
{
    lemma_counter_tracks_run(flags.drop_last());
}

/// The saturating counter of one debounced input.
pub struct DebounceCounter {
    counter: u8,
}

impl View for DebounceCounter {
    type V = int;

    closed spec fn view(&self) -> int {
        self.counter as int
    }
}

impl DebounceCounter {
    /// A counter reset to its maximum.
    pub fn new() -> (r: DebounceCounter)
        ensures
            r@ == DEBOUNCE_MAX,
            r.wf(),
    {
        DebounceCounter { counter: DEBOUNCE_MAX }
    }

    /// The counter stays within its range.
    pub open spec fn wf(&self) -> bool {
        0 <= self@ <= DEBOUNCE_MAX
    }

    /// Sets the counter back to its maximum, as after an agreeing sample.
    pub fn reset(&mut self)
        ensures
            final(self)@ == DEBOUNCE_MAX,
            final(self).wf(),
    {
        self.counter = DEBOUNCE_MAX;
    }

    /// Takes one sample; `agrees` tells whether it matched the confirmed level.
    /// Returns whether this sample confirms a change.
    pub fn sample(&mut self, agrees: bool) -> (edge: bool)
        requires
            old(self).wf(),
        ensures
            final(self).wf(),
            final(self)@ == counter_step(old(self)@, agrees),
            edge == edge_step(old(self)@, agrees),
    {
        if agrees {
            self.counter = DEBOUNCE_MAX;
            false
        } else if self.counter > 0 {
            self.counter = self.counter - 1;
            self.counter == 0
        } else {
            false
        }
    }
}

/// Sampling period of the power button, in milliseconds.
pub const BUTTON_PERIOD_MS: u16 = 25;

/// Sampling period of the door sensor, in milliseconds.
pub const DOOR_PERIOD_MS: u16 = 1000;

/// The arm/disarm push button. It reports a press once, after the level has
/// left its resting value for a full run of samples; a release is not reported.
pub struct Button {
    counter: DebounceCounter,
    is_default_high: bool,
    timer: Timer,
}

impl Button {
    /// The debounce counter's value.
    pub closed spec fn count(&self) -> int {
        self.counter@
    }

    /// The level at which the button rests when not pressed.
    pub closed spec fn resting_high(&self) -> bool {
        self.is_default_high
    }

    /// The tick at which the button was last sampled.
    pub closed spec fn last_sample(&self) -> CounterType {
        self.timer@
    }

    /// The button's state stays consistent.
    pub closed spec fn wf(&self) -> bool {
        self.counter.wf()
    }

    /// A button resting at the given level, first sampled a period after `now`.
    pub fn new(is_default_high: bool, now: CounterType) -> (r: Button)
        ensures
            r.wf(),
            r.count() == DEBOUNCE_MAX,
            r.resting_high() == is_default_high,
            r.last_sample() == now,
    {
        Button { counter: DebounceCounter::new(), is_default_high, timer: Timer::new(now) }
    }

    /// Polls the button. When a sampling period has passed it takes the pin
    /// reading `level` (`None`: the pin could not be read); `Some(true)` reports
    /// a press.
    pub fn is_pressed(&mut self, now: CounterType, level: Option<bool>) -> (r: Option<bool>)
        requires
            old(self).wf(),
        ensures
            button_polled(*old(self), now, level, *final(self), r),
    {
        if !self.timer.every(now, MilliSeconds(BUTTON_PERIOD_MS)) {
            return None;
        }
        match level {
            Some(is_high) => {
                if self.counter.sample(is_high == self.is_default_high) {
                    Some(true)
                } else {
                    None
                }
            },
            None => None,
        }
    }
}

/// A confirmed change of the door sensor.
#[derive(Clone, Copy, Debug, PartialEq, Eq, Structural)]
pub enum DoorState {
    Opened,
    Closed,
}

/// The door's reed switch. It reports each confirmed change of level, and
/// after a change it counts afresh against the new level.
pub struct DoorSensor {
    counter: DebounceCounter,
    timer: Timer,
    is_opened_last_state: bool,
}

impl DoorSensor {
    /// The debounce counter's value.
    pub closed spec fn count(&self) -> int {
        self.counter@
    }

    /// Whether the last confirmed level is "open".
    pub closed spec fn confirmed_open(&self) -> bool {
        self.is_opened_last_state
    }

    /// The tick at which the sensor was last sampled.
    pub closed spec fn last_sample(&self) -> CounterType {
        self.timer@
    }

    /// The sensor's state stays consistent.
    pub closed spec fn wf(&self) -> bool {
        self.counter.wf()
    }

    /// A sensor whose confirmed level is the pin reading `level` at `now`.
    pub fn new(now: CounterType, level: Option<bool>) -> (r: DoorSensor)
        ensures
            r.wf(),
            r.count() == DEBOUNCE_MAX,
            r.confirmed_open() == door_open(level),
            r.last_sample() == now,
    {
        DoorSensor {
            counter: DebounceCounter::new(),
            timer: Timer::new(now),
            is_opened_last_state: DoorSensor::is_open(level),
        }
    }

    /// Whether the pin reading shows the door open; a failed read counts as open.
    pub fn is_open(level: Option<bool>) -> (r: bool)
        ensures
            r == door_open(level),
    {
        match level {
            Some(x) => x,
            None => true,
        }
    }

    /// Whether the pin reading shows the door closed.
    pub fn is_closed(level: Option<bool>) -> (r: bool)
        ensures
            r == !door_open(level),
    {
        !DoorSensor::is_open(level)
    }

    /// Polls the sensor. When a sampling period has passed it takes the pin
    /// reading `level` and reports a change once it is confirmed.
    pub fn state(&mut self, now: CounterType, level: Option<bool>) -> (r: Option<DoorState>)
        requires
            old(self).wf(),
        ensures
            door_polled(*old(self), now, level, *final(self), r),
    {
        if !self.timer.every(now, MilliSeconds(DOOR_PERIOD_MS)) {
            return None;
        }
        let is_open = DoorSensor::is_open(level);
        if self.counter.sample(is_open == self.is_opened_last_state) {
            self.is_opened_last_state = is_open;
            self.counter.reset();
            if is_open {
                Some(DoorState::Opened)
            } else {
                Some(DoorState::Closed)
            }
        } else {
            None
        }
    }
}

/// Whether polling button `b` at `now` with pin reading `level` reports a press.
pub open spec fn button_press(b: Button, now: CounterType, level: Option<bool>) -> bool {
    &&& ticks_since(b.last_sample(), now) >= BUTTON_PERIOD_MS
    &&& level is Some
    &&& edge_step(b.count(), level == Some(b.resting_high()))
}

/// Polling button `b` at `now` with pin reading `level` leaves it as `b2` and
/// returns `r`.
pub open spec fn button_polled(
    b: Button,
    now: CounterType,
    level: Option<bool>,
    b2: Button,
    r: Option<bool>,
) -> bool {
    let due = ticks_since(b.last_sample(), now) >= BUTTON_PERIOD_MS;
    &&& b2.wf()
    &&& b2.resting_high() == b.resting_high()
    &&& b2.last_sample() == if due { now } else { b.last_sample() }
    &&& b2.count() == if due && level is Some {
        counter_step(b.count(), level == Some(b.resting_high()))
    } else {
        b.count()
    }
    &&& r == if button_press(b, now, level) { Some(true) } else { None::<bool> }
}

/// The change that polling sensor `d` at `now` with pin reading `level` reports.
pub open spec fn door_change(d: DoorSensor, now: CounterType, level: Option<bool>) -> Option<
    DoorState,
> {
    let due = ticks_since(d.last_sample(), now) >= DOOR_PERIOD_MS;
    let open = door_open(level);
    if due && edge_step(d.count(), open == d.confirmed_open()) {
        if open {
            Some(DoorState::Opened)
        } else {
            Some(DoorState::Closed)
        }
    } else {
        None
    }
}

/// Polling sensor `d` at `now` with pin reading `level` leaves it as `d2` and
/// returns `r`.
pub open spec fn door_polled(
    d: DoorSensor,
    now: CounterType,
    level: Option<bool>,
    d2: DoorSensor,
    r: Option<DoorState>,
) -> bool {
    let due = ticks_since(d.last_sample(), now) >= DOOR_PERIOD_MS;
    let open = door_open(level);
    &&& d2.wf()
    &&& d2.last_sample() == if due { now } else { d.last_sample() }
    &&& d2.count() == if r is Some {
        DEBOUNCE_MAX as int
    } else if due {
        counter_step(d.count(), open == d.confirmed_open())
    } else {
        d.count()
    }
    &&& d2.confirmed_open() == if r is Some { open } else { d.confirmed_open() }
    &&& r == door_change(d, now, level)
}

/// Whether a pin reading shows the door open; a failed read counts as open.
pub open spec fn door_open(level: Option<bool>) -> bool {
    match level {
        Some(x) => x,
        None => true,
    }
}

} // verus!
