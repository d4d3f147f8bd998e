//! Wall-clock readings, modelled as plain calendar and time-of-day fields.
//!
//! The clock itself is the one thing this module takes on trust: two small
//! wrappers read the current time through `chrono` and hand back nothing
//! but integers, with the ranges that crate documents. Everything built on
//! a reading — including the division of the nanosecond field down to
//! microseconds — is verified.

use chrono::Datelike;
use chrono::Timelike;
use vstd::prelude::*;

verus! {

/// A raw reading of the wall clock: the calendar and time-of-day fields
/// exactly as the clock reports them, with nanosecond resolution.
#[derive(Clone, Copy, Debug, PartialEq, Eq, Structural)]
pub(crate) struct ClockReading {
    pub year: i32,
    pub month: u32,
    pub day: u32,
    pub hour: u32,
    pub minute: u32,
    pub second: u32,
    pub nanosecond: u32,
}

/// The field ranges every clock reading satisfies: months and days count
/// from 1, the time-of-day fields are within a day, and the nanosecond
/// field runs to 1,999,999,999 so that a leap second can be represented.
pub(crate) open spec fn reading_in_range(c: ClockReading) -> bool {
    &&& -262144 <= c.year <= 262143
    &&& 1 <= c.month <= 12
    &&& 1 <= c.day <= 31
    &&& c.hour <= 23
    &&& c.minute <= 59
    &&& c.second <= 59
    &&& c.nanosecond <= 1_999_999_999
}

/// Relies on `chrono::Utc::now` and `chrono::DateTime::naive_utc` for the
/// current UTC time, and on the `Datelike` / `Timelike` accessors of
/// `chrono::NaiveDateTime` for its fields; the ranges stated here are the
/// ones those accessors document.
#[verifier::external_body]
pub(crate) fn read_utc_clock() -> (c: ClockReading)
    ensures
        reading_in_range(c),
{
    let now = chrono::Utc::now().naive_utc();
    ClockReading {
        year: now.year(),
        month: now.month(),
        day: now.day(),
        hour: now.hour(),
        minute: now.minute(),
        second: now.second(),
        nanosecond: now.nanosecond(),
    }
}

/// Relies on `chrono::Local::now` and `chrono::DateTime::naive_local` for
/// the current time in the system's local timezone, and on the `Datelike`
/// / `Timelike` accessors of `chrono::NaiveDateTime` for its fields; the
/// ranges stated here are the ones those accessors document.
#[verifier::external_body]
pub(crate) fn read_local_clock() -> (c: ClockReading)
    ensures
        reading_in_range(c),
{
    let now = chrono::Local::now().naive_local();
    ClockReading {
        year: now.year(),
        month: now.month(),
        day: now.day(),
        hour: now.hour(),
        minute: now.minute(),
        second: now.second(),
        nanosecond: now.nanosecond(),
    }
}

/// One instant, as the record formatter consumes it: calendar date, time
/// of day, and the sub-second fraction in microseconds.
#[derive(Clone, Copy, Debug, PartialEq, Eq, Structural)]
pub struct Timestamp {
    pub year: i32,
    pub month: u32,
    pub day: u32,
    pub hour: u32,
    pub minute: u32,
    pub second: u32,
    /// Microseconds since the whole second; values of 1,000,000 and above
    /// fall within a leap second.
    pub micro: u32,
}

impl Timestamp {
    /// The ranges a timestamp taken from the clock satisfies.
    pub open spec fn wf(self) -> bool {
        &&& -262144 <= self.year <= 262143
        &&& 1 <= self.month <= 12
        &&& 1 <= self.day <= 31
        &&& self.hour <= 23
        &&& self.minute <= 59
        &&& self.second <= 59
        &&& self.micro <= 1_999_999
    }
}

/// Reads the current time, in UTC when `utc` is set and in local time
/// otherwise, rounding the sub-second fraction down to whole microseconds.
pub fn current_timestamp(utc: bool) -> (t: Timestamp)
    ensures
        t.wf(),
{
    let c = if utc {
        read_utc_clock()
    } else {
        read_local_clock()
    };
    Timestamp {
        year: c.year,
        month: c.month,
        day: c.day,
        hour: c.hour,
        minute: c.minute,
        second: c.second,
        micro: c.nanosecond / 1000,
    }
}

} // verus!
