//! Interval timing on top of a wrapping millisecond tick counter.
use vstd::prelude::*;

verus! {

/// The width of the tick counter that the time source maintains.
pub type CounterType = u16;

/// Ticks from `mark` to `now` on a counter that wraps at 2^16.
pub open spec fn ticks_since(mark: u16, now: u16) -> int {
    if now >= mark {
        now - mark
    } else {
        now + 0x1_0000 - mark
    }
}

/// What `every` returns for a timer marked at `mark`, polled at `now` with a
/// duration of `d` milliseconds, and the mark it leaves.
pub open spec fn every_outcome(mark: u16, now: u16, d: int) -> (bool, u16) {
    if ticks_since(mark, now) >= d {
        (true, now)
    } else {
        (false, mark)
    }
}

/// Polled twice, `every` returns true both times only when the duration has
/// passed between the two polls; polled again with no time passing it
/// returns false, whatever the first poll returned; and right after a mark
/// the time elapsed is zero, below any positive duration.
pub proof fn lemma_every_spacing(mark: u16, now1: u16, now2: u16, d: int)
    requires
        d > 0,
    ensures
        ({
            let (first, mark1) = every_outcome(mark, now1, d);
            &&& first && every_outcome(mark1, now2, d).0 ==> ticks_since(now1, now2) >= d
            &&& !every_outcome(mark1, now1, d).0
        }),
        ticks_since(now1, now1) == 0 < d,
{
}

/// A duration counted in milliseconds.
#[derive(Clone, Copy, PartialEq, Eq, Structural)]
pub struct MilliSeconds(pub CounterType);

/// A duration counted in whole seconds.
#[derive(Clone, Copy, PartialEq, Eq, Structural)]
pub struct Seconds(pub CounterType);

/// A duration that converts to a number of milliseconds.
pub trait TimeType {
    /// The duration in milliseconds, unbounded.
    spec fn spec_millis(&self) -> int;

    /// The duration in milliseconds, as a tick count.
    fn value(&self) -> (r: CounterType)
        requires
            0 <= self.spec_millis() <= u16::MAX,
        ensures
            r as int == self.spec_millis(),
    ;
}

impl TimeType for MilliSeconds {
    open spec fn spec_millis(&self) -> int {
        self.0 as int
    }

    fn value(&self) -> (r: CounterType) {
        self.0
    }
}

impl TimeType for Seconds {
    open spec fn spec_millis(&self) -> int {
        self.0 as int * 1000
    }

    fn value(&self) -> (r: CounterType) {
        self.to_millis().0
    }
}

impl MilliSeconds {
    /// Whole seconds in this duration, rounded down.
    pub fn to_seconds(self) -> (r: Seconds)
        ensures
            r.0 == self.0 / 1000,
    {
        Seconds(self.0 / 1000)
    }

    /// The sum of two durations.
    pub fn plus(self, other: MilliSeconds) -> (r: MilliSeconds)
        requires
            self.0 + other.0 <= u16::MAX,
        ensures
            r.0 == self.0 + other.0,
    {
        MilliSeconds(self.0 + other.0)
    }
}

impl Seconds {
    /// The same duration in milliseconds.
    pub fn to_millis(self) -> (r: MilliSeconds)
        requires
            self.0 * 1000 <= u16::MAX,
        ensures
            r.0 == self.0 * 1000,
    {
        MilliSeconds(self.0 * 1000)
    }

    /// The sum of two durations.
    pub fn plus(self, other: Seconds) -> (r: Seconds)
        requires
            self.0 + other.0 <= u16::MAX,
        ensures
            r.0 == self.0 + other.0,
    {
        Seconds(self.0 + other.0)
    }
}

/// Builds durations from plain counts.
pub trait CounterTypeExt {
    /// This count as milliseconds.
    fn mil(self) -> (r: MilliSeconds);

    /// This count as seconds.
    fn sec(self) -> (r: Seconds);
}

impl CounterTypeExt for CounterType {
    fn mil(self) -> (r: MilliSeconds)
        ensures
            r.0 == self,
    {
        MilliSeconds(self)
    }

    fn sec(self) -> (r: Seconds)
        ensures
            r.0 == self,
    {
        Seconds(self)
    }
}

/// The atomic type that holds a counter of a given width.
pub trait HasAtomic {
    type Atomic;
}

impl HasAtomic for u32 {
    type Atomic = core::sync::atomic::AtomicU32;
}

impl HasAtomic for u16 {
    type Atomic = core::sync::atomic::AtomicU16;
}

impl HasAtomic for u8 {
    type Atomic = core::sync::atomic::AtomicU8;
}

/// The millisecond tick counter that a periodic interrupt advances.
pub struct SystemTimer {
    counter: CounterType,
}

impl View for SystemTimer {
    type V = CounterType;

    closed spec fn view(&self) -> CounterType {
        self.counter
    }
}

impl SystemTimer {
    /// A counter that starts at zero.
    pub fn new() -> (r: SystemTimer)
        ensures
            r@ == 0,
    {
        SystemTimer { counter: 0 }
    }

    /// The current tick count.
    pub fn now(&self) -> (r: CounterType)
        ensures
            r == self@,
    {
        self.counter
    }

    /// Advances the counter by `cnt` ticks, wrapping at 2^16.
    pub fn inc(&mut self, cnt: CounterType)
        ensures
            final(self)@ == vstd::wrapping::u16_specs::wrapping_add(old(self)@, cnt),
    {
        self.counter = self.counter.wrapping_add(cnt);
    }
}

/// A mark on the tick counter; measures the time since it was set.
#[derive(Clone, Copy)]
pub struct Timer {
    time: CounterType,
}

impl View for Timer {
    type V = CounterType;

    /// The tick count at which the mark was set.
    closed spec fn view(&self) -> CounterType {
        self.time
    }
}

impl Timer {
    /// A timer marked at `now`.
    pub fn new(now: CounterType) -> (r: Timer)
        ensures
            r@ == now,
    {
        Timer { time: now }
    }

    /// Ticks since the mark, tolerant of the counter wrapping once.
    pub fn elapsed(&self, now: CounterType) -> (r: CounterType)
        ensures
            r as int == ticks_since(self@, now),
    {
        now.wrapping_sub(self.time)
    }

    /// Moves the mark to `now`.
    pub fn reset(&mut self, now: CounterType)
        ensures
            final(self)@ == now,
    {
        self.time = now;
    }

    /// Whether less than `time` has passed since the mark.
    pub fn waiting<T: TimeType>(&self, now: CounterType, time: &T) -> (r: bool)
        requires
            0 <= time.spec_millis() <= u16::MAX,
        ensures
            r == (ticks_since(self@, now) < time.spec_millis()),
    {
        let diff = now.wrapping_sub(self.time);
        diff < time.value()
    }

    /// True once at least `time` has passed since the mark, and then the mark
    /// moves to `now`; otherwise false, with the mark kept.
    pub fn every<T: TimeType>(&mut self, now: CounterType, time: T) -> (r: bool)
        requires
            0 <= time.spec_millis() <= u16::MAX,
        ensures
            (r, final(self)@) == every_outcome(old(self)@, now, time.spec_millis()),
    {
        let diff = now.wrapping_sub(self.time);
        if diff >= time.value() {
            self.time = now;
            true
        } else {
            false
        }
    }
}

} // verus!
