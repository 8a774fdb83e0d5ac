//! Wall-clock readings: the local time of day and the current epoch second.

use vstd::prelude::*;

verus! {

/// Hour of day and minute of hour, as mathematical integers.
pub struct ClockView {
    pub hour: int,
    pub minute: int,
}

impl ClockView {
    /// The hour lies in `0..24` and the minute in `0..60`.
    pub open spec fn is_valid(self) -> bool {
        0 <= self.hour < 24 && 0 <= self.minute < 60
    }
}

/// A local time of day, to the minute. Every value is a valid time.
#[derive(Clone, Copy, Debug, PartialEq, Eq)]
pub struct ClockTime {
    hour: u32,
    minute: u32,
}

impl View for ClockTime {
    type V = ClockView;

    closed spec fn view(&self) -> ClockView {
        ClockView { hour: self.hour as int, minute: self.minute as int }
    }
}

impl ClockTime {
    #[verifier::type_invariant]
    pub closed spec fn well_formed(self) -> bool {
        self@.is_valid()
    }

    /// The time `hour:minute`, or `None` where that is no time of day.
    pub fn new(hour: u32, minute: u32) -> (time: Option<ClockTime>)
        ensures
            time is Some <==> hour < 24 && minute < 60,
            time matches Some(t) ==> t@.hour == hour && t@.minute == minute,
    {
        if hour < 24 && minute < 60 {
            Some(ClockTime { hour, minute })
        } else {
            None
        }
    }

    /// The hour of day, `0..24`.
    pub fn hour(&self) -> (h: u32)
        ensures
            h == self@.hour,
            h < 24,
    {
        proof {
            use_type_invariant(self);
        }
        self.hour
    }

    /// The minute of the hour, `0..60`.
    pub fn minute(&self) -> (m: u32)
        ensures
            m == self@.minute,
            m < 60,
    {
        proof {
            use_type_invariant(self);
        }
        self.minute
    }
}

/// Reads the local wall clock through chrono's `Local::now` and hands out
/// the hour and the minute that `Timelike::hour` and `Timelike::minute`
/// report for it. chrono documents the first as a number from 0 to 23 and
/// the second as a number from 0 to 59; nothing else is claimed, since the
/// reading depends on the clock and on the machine's time zone. chrono
/// refuses to represent a system clock set before 1970 and panics on it.
#[verifier::external_body]
pub(crate) fn read_local_clock() -> (reading: (u32, u32))
    ensures
        reading.0 < 24,
        reading.1 < 60,
{
    let now = chrono::Local::now();
    (chrono::Timelike::hour(&now), chrono::Timelike::minute(&now))
}

/// Reads the clock through chrono's `Utc::now` and hands out what
/// `DateTime::timestamp` reports for it: the seconds since the start of
/// 1970. Nothing is claimed of the number, which depends on the clock.
/// chrono refuses to represent a system clock set before 1970 and panics on
/// it.
#[verifier::external_body]
pub(crate) fn read_epoch_seconds() -> (seconds: i64) {
    chrono::Utc::now().timestamp()
}

/// The local time of day at this moment.
pub fn local_time() -> (time: ClockTime)
    ensures
        time@.is_valid(),
{
    let (hour, minute) = read_local_clock();
    ClockTime { hour, minute }
}

} // verus!
