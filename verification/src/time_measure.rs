//! Time that has passed since a reading of the wall clock.
//!
//! The clock is read through the `time` crate, and the difference of two
//! readings is taken by it; the readings themselves are plain numbers here, so
//! that what is handed to the crate and what comes back can be stated.

use vstd::prelude::*;

verus! {

/// The nanoseconds in a second.
pub const NANOS_PER_SECOND: i32 = 1_000_000_000;

/// The nanoseconds in a millisecond.
pub const NANOS_PER_MILLISECOND: i32 = 1_000_000;

/// The most whole seconds, either way, that two readings may lie apart for the
/// time between them to be measured: the time then counts fewer than 2^63
/// milliseconds.
pub const MAX_SPAN_SECONDS: i64 = 9_223_372_036_854_774;

/// A reading of the wall clock: the whole seconds since the epoch, and the
/// nanoseconds past them.
#[derive(Copy, Debug, PartialEq, Eq, Structural)]
pub struct ClockReading {
    pub sec: i64,
    pub nsec: i32,
}

impl Clone for ClockReading {
    fn clone(&self) -> (copy: Self)
        ensures
            copy == *self,
    {
        *self
    }
}

impl ClockReading {
    /// The nanoseconds are less than a second.
    pub open spec fn wf(self) -> bool {
        0 <= self.nsec < NANOS_PER_SECOND
    }

    /// The reading in nanoseconds since the epoch.
    pub open spec fn nanos(self) -> int {
        self.sec * NANOS_PER_SECOND + self.nsec
    }
}

/// Two readings between which the time can be measured: both are well formed,
/// and their seconds are no more than `MAX_SPAN_SECONDS` apart.
pub open spec fn measurable(start: ClockReading, end: ClockReading) -> bool {
    &&& start.wf()
    &&& end.wf()
    &&& -MAX_SPAN_SECONDS <= end.sec - start.sec <= MAX_SPAN_SECONDS
}

/// The whole units of `unit` in `amount`, rounded towards zero.
pub open spec fn whole(amount: int, unit: int) -> int {
    if amount >= 0 {
        amount / unit
    } else {
        -((-amount) / unit)
    }
}

/// The time from one reading to another.
pub struct Span {
    pub start: ClockReading,
    pub end: ClockReading,
}

impl Span {
    /// The nanoseconds from the start to the end; negative where the end is
    /// the earlier reading.
    pub open spec fn nanos(self) -> int {
        self.end.nanos() - self.start.nanos()
    }
}

/// Reads the wall clock with `time::get_time`.
///
/// Nothing is claimed of the time that it shows. The nanoseconds are less than
/// a second: `get_time` makes its result with `Timespec::new`, which asserts
/// that.
#[verifier::external_body]
fn read_clock() -> (now: ClockReading)
    ensures
        now.wf(),
{
    let now = time::get_time();
    ClockReading { sec: now.sec, nsec: now.nsec }
}

/// The whole seconds from `start` to `end`: the difference of the two as
/// `time::Timespec`, read with `time::Duration::num_seconds`.
///
/// The difference is a `Duration` of the seconds apart plus the nanoseconds
/// apart, and `num_seconds` gives its whole seconds, rounded towards zero. The
/// subtraction panics where the seconds apart are beyond what a `Duration` can
/// hold, and `Timespec::new` where the nanoseconds are not less than a second:
/// `measurable` leaves both out.
#[verifier::external_body]
fn seconds_between(start: ClockReading, end: ClockReading) -> (seconds: i64)
    requires
        measurable(start, end),
    ensures
        seconds == whole((Span { start, end }).nanos(), NANOS_PER_SECOND as int),
{
    let from = time::Timespec::new(start.sec, start.nsec);
    let to = time::Timespec::new(end.sec, end.nsec);
    (to - from).num_seconds()
}

/// The whole milliseconds from `start` to `end`: the difference of the two as
/// `time::Timespec`, read with `time::Duration::num_milliseconds`.
///
/// `num_milliseconds` gives the whole milliseconds of the difference, rounded
/// towards zero; within `measurable` they fit an `i64`.
#[verifier::external_body]
fn milliseconds_between(start: ClockReading, end: ClockReading) -> (milliseconds: i64)
    requires
        measurable(start, end),
    ensures
        milliseconds == whole((Span { start, end }).nanos(), NANOS_PER_MILLISECOND as int),
{
    let from = time::Timespec::new(start.sec, start.nsec);
    let to = time::Timespec::new(end.sec, end.nsec);
    (to - from).num_milliseconds()
}

/// A point in time from which time is measured.
pub struct TimeMeasure {
    start_time: ClockReading,
}

/// The time between the start of a measure and a later reading of the clock.
pub struct TimeDuration {
    start: ClockReading,
    end: ClockReading,
}

impl View for TimeMeasure {
    type V = ClockReading;

    closed spec fn view(&self) -> ClockReading {
        self.start_time
    }
}

impl View for TimeDuration {
    type V = Span;

    closed spec fn view(&self) -> Span {
        Span { start: self.start, end: self.end }
    }
}

impl TimeMeasure {
    #[verifier::type_invariant]
    spec fn inv(self) -> bool {
        self.start_time.wf()
    }

    /// A measure that starts now, by the wall clock.
    pub fn start() -> (measure: TimeMeasure)
        ensures
            measure@.wf(),
    {
        TimeMeasure { start_time: read_clock() }
    }

    /// A measure that starts at `reading`, where that is well formed.
    pub fn start_at(reading: ClockReading) -> (measure: Option<TimeMeasure>)
        ensures
            measure is Some <==> reading.wf(),
            measure matches Some(m) ==> m@ == reading,
    {
        if 0 <= reading.nsec && reading.nsec < NANOS_PER_SECOND {
            Some(TimeMeasure { start_time: reading })
        } else {
            None
        }
    }

    /// The time from the start of the measure to now, by the wall clock, or
    /// `None` where the clock shows a time too far from the start to be
    /// measured.
    pub fn end(&self) -> (elapsed: Option<TimeDuration>)
        ensures
            elapsed matches Some(d) ==> d@.start == self@ && measurable(d@.start, d@.end),
    {
        self.end_at(read_clock())
    }

    /// The time from the start of the measure to the reading `now`, or `None`
    /// where the time between the two cannot be measured.
    pub fn end_at(&self, now: ClockReading) -> (elapsed: Option<TimeDuration>)
        ensures
            self@.wf(),
            elapsed is Some <==> measurable(self@, now),
            elapsed matches Some(d) ==> d@ == (Span { start: self@, end: now }),
    {
        proof {
            use_type_invariant(self);
        }
        let start = self.start_time;
        if !(0 <= now.nsec && now.nsec < NANOS_PER_SECOND) {
            return None;
        }
        match now.sec.checked_sub(start.sec) {
            Some(apart) if -MAX_SPAN_SECONDS <= apart && apart <= MAX_SPAN_SECONDS => Some(
                TimeDuration { start, end: now },
            ),
            _ => None,
        }
    }
}

impl TimeDuration {
    #[verifier::type_invariant]
    spec fn inv(self) -> bool {
        measurable(self.start, self.end)
    }

    /// The whole seconds that have passed, rounded towards zero.
    pub fn current_second(&self) -> (second: i64)
        ensures
            measurable(self@.start, self@.end),
            second == whole(self@.nanos(), NANOS_PER_SECOND as int),
    {
        proof {
            use_type_invariant(self);
        }
        seconds_between(self.start, self.end)
    }

    /// The whole milliseconds that have passed, rounded towards zero.
    pub fn milliseconds(&self) -> (milliseconds: i64)
        ensures
            measurable(self@.start, self@.end),
            milliseconds == whole(self@.nanos(), NANOS_PER_MILLISECOND as int),
    {
        proof {
            use_type_invariant(self);
        }
        milliseconds_between(self.start, self.end)
    }
}

} // verus!
