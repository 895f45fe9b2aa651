use chrono::Datelike;
use vstd::prelude::*;

verus! {

/// A calendar date in the proleptic Gregorian calendar, as UTC sees it.
#[derive(Clone, Copy, Debug, PartialEq, Eq, Structural)]
pub struct Date {
    pub year: i32,
    pub month: u32,
    pub day: u32,
}

/// Gregorian leap years: every fourth year, except centuries not divisible
/// by 400 (year 0 is a leap year).
pub open spec fn is_leap_year(year: int) -> bool {
    year % 4 == 0 && (year % 100 != 0 || year % 400 == 0)
}

/// The number of days in `month` (1 to 12) of `year`.
pub open spec fn days_in_month(year: int, month: int) -> int {
    if month == 2 {
        if is_leap_year(year) {
            29
        } else {
            28
        }
    } else if month == 4 || month == 6 || month == 9 || month == 11 {
        30
    } else {
        31
    }
}

impl Date {
    /// The date exists in the calendar: a month from 1 to 12 and a day within
    /// that month's length.
    pub open spec fn valid(self) -> bool {
        1 <= self.month <= 12 && 1 <= self.day <= days_in_month(self.year as int, self.month as int)
    }

    pub fn new(year: i32, month: u32, day: u32) -> (r: Date)
        ensures
            r == (Date { year, month, day }),
    {
        Date { year, month, day }
    }
}

/// Relies on std's `SystemTime::now` and `SystemTime::duration_since` with
/// `UNIX_EPOCH`: `None` when the clock reads a time before the epoch, else the
/// whole seconds since it and the nanoseconds beyond them, which `Duration`
/// documents as less than one billion.
#[verifier::external_body]
fn unix_time() -> (r: Option<(u64, u32)>)
    ensures
        r matches Some(t) ==> t.1 < 1_000_000_000,
{
    let since = std::time::SystemTime::now().duration_since(std::time::UNIX_EPOCH).ok()?;
    Some((since.as_secs(), since.subsec_nanos()))
}

/// Relies on chrono's `DateTime::from_timestamp` and its `Datelike` accessors:
/// `None` when the timestamp is outside chrono's range, else the UTC calendar
/// date of that instant, which chrono only ever holds as a date that exists.
#[verifier::external_body]
fn utc_date_of(secs: i64, nanos: u32) -> (r: Option<Date>)
    ensures
        r matches Some(d) ==> d.valid(),
{
    let at = chrono::DateTime::from_timestamp(secs, nanos)?;
    Some(Date { year: at.year(), month: at.month(), day: at.day() })
}

/// Today's date in UTC, from the system clock; `None` when the clock reads a
/// time before 1970 or beyond the range of dates that can be represented.
pub fn current_timestamp() -> (r: Option<Date>)
    ensures
        r matches Some(d) ==> d.valid(),
{
    match unix_time() {
        None => None,
        Some((secs, nanos)) => {
            if secs > i64::MAX as u64 {
                None
            } else {
                utc_date_of(secs as i64, nanos)
            }
        },
    }
}

} // verus!
