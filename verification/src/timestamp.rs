//! Calendar timestamps as plain numeric fields.
//!
//! The wire format stores the year as two decimal digits relative to 2000,
//! so only years 2000 through 2099 are representable. Construction rejects
//! a year outside that range rather than wrapping it silently.

use vstd::prelude::*;

verus! {

/// One UTC calendar time, split into the fields the wire frame encodes.
#[derive(Clone, Copy, PartialEq, Eq, Structural, Debug)]
pub struct Timestamp {
    pub year: u16,
    pub month: u8,
    pub day: u8,
    pub hour: u8,
    pub minute: u8,
    pub second: u8,
}

impl Timestamp {
    /// The field ranges every usable timestamp satisfies.
    pub open spec fn well_formed(self) -> bool {
        &&& 2000 <= self.year <= 2099
        &&& 1 <= self.month <= 12
        &&& 1 <= self.day <= 31
        &&& self.hour <= 23
        &&& self.minute <= 59
        &&& self.second <= 59
    }

    /// Builds a timestamp from calendar parts, rejecting any part outside
    /// the representable ranges.
    pub fn from_parts(year: i32, month: u8, day: u8, hour: u8, minute: u8, second: u8) -> (r: Option<
        Timestamp,
    >)
        ensures
            r is Some <==> (2000 <= year <= 2099 && 1 <= month <= 12 && 1 <= day <= 31 && hour
                <= 23 && minute <= 59 && second <= 59),
            r matches Some(t) ==> {
                &&& t.well_formed()
                &&& t.year as int == year as int
                &&& t.month == month
                &&& t.day == day
                &&& t.hour == hour
                &&& t.minute == minute
                &&& t.second == second
            },
    {
        if 2000 <= year && year <= 2099 && 1 <= month && month <= 12 && 1 <= day && day <= 31
            && hour <= 23 && minute <= 59 && second <= 59 {
            Some(
                Timestamp {
                    year: year as u16,
                    month,
                    day,
                    hour,
                    minute,
                    second,
                },
            )
        } else {
            None
        }
    }
}

/// Relies on `time::OffsetDateTime::now_utc` and its calendar accessors
/// (`year`, `month`, `day`, `hour`, `minute`, `second`) for the parts of
/// the current UTC time; each part lies in the range the accessor's
/// documentation states (month 1..=12, day 1..=31, hour below 24, minute
/// and second below 60). Nothing is assumed of the year.
#[verifier::external_body]
fn utc_now_parts() -> (r: (i32, u8, u8, u8, u8, u8))
    ensures
        1 <= r.1 <= 12,
        1 <= r.2 <= 31,
        r.3 <= 23,
        r.4 <= 59,
        r.5 <= 59,
{
    let t = time::OffsetDateTime::now_utc();
    (t.year(), u8::from(t.month()), t.day(), t.hour(), t.minute(), t.second())
}

/// The current UTC time, if its year is representable; `None` for a clock
/// reading outside the years 2000 through 2099.
pub fn now_utc() -> (r: Option<Timestamp>)
    ensures
        r matches Some(t) ==> t.well_formed(),
{
    let (year, month, day, hour, minute, second) = utc_now_parts();
    Timestamp::from_parts(year, month, day, hour, minute, second)
}

} // verus!
