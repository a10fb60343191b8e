//! Plain calendar dates and wall-clock timestamps, and the trusted read
//! of the local clock.
use vstd::prelude::*;

use chrono::Datelike;
use chrono::Timelike;

verus! {

/// A calendar date, held as plain year, month and day numbers.
#[derive(Clone, Copy, PartialEq, Eq, Structural, Debug)]
pub struct Date {
    pub year: u16,
    pub month: u8,
    pub day: u8,
}

impl Date {
    /// The ranges that the fixed-width date rendering relies on.
    pub open spec fn valid(self) -> bool {
        self.year <= 9999 && 1 <= self.month <= 12 && 1 <= self.day <= 31
    }
}

/// A local wall-clock timestamp with second precision.
#[derive(Clone, Copy, PartialEq, Eq, Structural, Debug)]
pub struct Timestamp {
    pub date: Date,
    pub hour: u8,
    pub minute: u8,
    pub second: u8,
}

impl Timestamp {
    /// The ranges that the fixed-width timestamp rendering relies on.
    pub open spec fn valid(self) -> bool {
        self.date.valid() && self.hour < 24 && self.minute < 60 && self.second < 60
    }
}

/// Relies on chrono::Local::now and the Datelike / Timelike accessors of
/// the returned date-time: month is 1..=12, day of month 1..=31, hour
/// 0..=23, minute 0..=59, second 0..=59. The year is any i32.
#[verifier::external_body]
fn local_now_parts() -> (r: (i32, u32, u32, u32, u32, u32))
    ensures
        1 <= r.1 <= 12,
        1 <= r.2 <= 31,
        r.3 < 24,
        r.4 < 60,
        r.5 < 60,
{
    let now = chrono::Local::now();
    (now.year(), now.month(), now.day(), now.hour(), now.minute(), now.second())
}

/// Builds a timestamp from plain clock parts, accepting exactly the
/// values that the fixed-width rendering can represent.
pub fn timestamp_from_parts(
    year: i32,
    month: u32,
    day: u32,
    hour: u32,
    minute: u32,
    second: u32,
) -> (r: Option<Timestamp>)
    ensures
        r is Some <==> (0 <= year <= 9999 && 1 <= month <= 12 && 1 <= day <= 31 && hour < 24
            && minute < 60 && second < 60),
        r matches Some(t) ==> t == (Timestamp {
            date: Date { year: year as u16, month: month as u8, day: day as u8 },
            hour: hour as u8,
            minute: minute as u8,
            second: second as u8,
        }),
        r matches Some(t) ==> t.valid(),
{
    if 0 <= year && year <= 9999 && 1 <= month && month <= 12 && 1 <= day && day <= 31 && hour < 24
        && minute < 60 && second < 60 {
        Some(
            Timestamp {
                date: Date { year: year as u16, month: month as u8, day: day as u8 },
                hour: hour as u8,
                minute: minute as u8,
                second: second as u8,
            },
        )
    } else {
        None
    }
}

/// Reads the local clock and returns it as a timestamp. `None` can come
/// only from a clock year outside 0..=9999, which the fixed four-digit
/// year rendering cannot represent.
pub fn now_timestamp() -> (r: Option<Timestamp>)
    ensures
        r matches Some(t) ==> t.valid(),
{
    let (year, month, day, hour, minute, second) = local_now_parts();
    timestamp_from_parts(year, month, day, hour, minute, second)
}

} // verus!
