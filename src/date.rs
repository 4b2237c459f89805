use vstd::prelude::*;

use chrono::Datelike;

verus! {

/// Earliest year of a calendar date.
pub const MIN_YEAR: i32 = -262143;

/// Latest year of a calendar date.
pub const MAX_YEAR: i32 = 262142;

/// A day of the proleptic Gregorian calendar, by year, month and day.
#[derive(Clone, Copy, Debug, PartialEq, Eq, Hash, Structural)]
pub struct Date {
    pub year: i32,
    pub month: u32,
    pub day: u32,
}

pub open spec fn is_leap_year(year: int) -> bool {
    year % 4 == 0 && (year % 100 != 0 || year % 400 == 0)
}

pub open spec fn days_in_month(year: int, month: int) -> int {
    if month == 2 {
        if is_leap_year(year) {
            29
        } else {
            28
        }
    } else if month == 4 || month == 6 || month == 9 || month == 11 {
        30
    } else {
        31
    }
}

/// The year is in range and the month and day name an existing calendar day.
pub open spec fn valid_ymd(year: int, month: int, day: int) -> bool {
    &&& MIN_YEAR <= year <= MAX_YEAR
    &&& 1 <= month <= 12
    &&& 1 <= day <= days_in_month(year, month)
}

/// Relies on chrono's `NaiveDate::from_ymd_opt`, which gives a date exactly when
/// the year lies in chrono's range and the day exists in that month of the
/// proleptic Gregorian calendar, and on `year`, `month` and `day`, which read
/// the parts back.
#[verifier::external_body]
fn calendar_date(year: i32, month: u32, day: u32) -> (r: Option<Date>)
    ensures
        r is Some <==> valid_ymd(year as int, month as int, day as int),
        r is Some ==> r->0 == (Date { year, month, day }),
{
    match chrono::NaiveDate::from_ymd_opt(year, month, day) {
        Some(d) => Some(Date { year: d.year(), month: d.month(), day: d.day() }),
        None => None,
    }
}

impl Date {
    pub open spec fn wf(self) -> bool {
        valid_ymd(self.year as int, self.month as int, self.day as int)
    }

    /// The date with the given parts, if that calendar day exists.
    pub fn from_ymd(year: i32, month: u32, day: u32) -> (r: Option<Date>)
        ensures
            r is Some <==> valid_ymd(year as int, month as int, day as int),
            r is Some ==> r->0 == (Date { year, month, day }) && r->0.wf(),
    {
        calendar_date(year, month, day)
    }

    /// Strictly earlier in the calendar.
    pub open spec fn earlier_than(self, other: Date) -> bool {
        ||| self.year < other.year
        ||| self.year == other.year && self.month < other.month
        ||| self.year == other.year && self.month == other.month && self.day < other.day
    }

    pub fn is_before(&self, other: &Date) -> (r: bool)
        ensures
            r == self.earlier_than(*other),
    {
        self.year < other.year || (self.year == other.year && (self.month < other.month || (
        self.month == other.month && self.day < other.day)))
    }
}

} // verus!
