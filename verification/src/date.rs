//! Calendar dates: validity in the proleptic Gregorian calendar, extraction
//! of a date from a structured (year, month, day) triple, and parsing of the
//! date component of a full-precision timestamp string.

use vstd::prelude::*;

use chrono::Datelike;

verus! {

/// A valid Gregorian calendar date.
///
/// Well-formed values satisfy [`valid_date`]; every constructor in this
/// library establishes that invariant.
#[derive(Clone, Copy, Debug, PartialEq, Eq, Hash, Structural)]
pub struct Date {
    pub year: i32,
    pub month: i32,
    pub day: i32,
}

/// A leap year: divisible by 4, except century years not divisible by 400.
pub open spec fn is_leap_year(y: int) -> bool {
    y % 4 == 0 && (y % 100 != 0 || y % 400 == 0)
}

/// Number of days in month `m` of year `y`, for `m` in 1..=12.
pub open spec fn days_in_month(y: int, m: int) -> int {
    if m == 2 {
        if is_leap_year(y) {
            29
        } else {
            28
        }
    } else if m == 4 || m == 6 || m == 9 || m == 11 {
        30
    } else {
        31
    }
}

/// The triple (y, m, d) names a real Gregorian calendar date.
pub open spec fn valid_date(y: int, m: int, d: int) -> bool {
    1 <= m <= 12 && 1 <= d <= days_in_month(y, m)
}

impl Date {
    /// Well-formedness: the fields name a real calendar date.
    pub open spec fn wf(self) -> bool {
        valid_date(self.year as int, self.month as int, self.day as int)
    }

    /// The date as a mathematical (year, month, day) triple.
    pub open spec fn triple(self) -> (int, int, int) {
        (self.year as int, self.month as int, self.day as int)
    }
}

/// The triple carried by an optional date, if any.
pub open spec fn opt_triple(d: Option<Date>) -> Option<(int, int, int)> {
    match d {
        Some(d) => Some(d.triple()),
        None => None,
    }
}

/// Every date in an optional result is well-formed.
pub open spec fn opt_wf(d: Option<Date>) -> bool {
    d matches Some(dd) ==> dd.wf()
}

/// Whether year `y` is a leap year.
fn is_leap_year_exec(y: i32) -> (b: bool)
    ensures
        b == is_leap_year(y as int),
{
    y % 4 == 0 && (y % 100 != 0 || y % 400 == 0)
}

/// Converts a structured (year, month, day) triple into a calendar date.
///
/// Returns a date exactly when the triple names a real Gregorian date
/// (months 1..=12, days valid for the month, February 29 only in leap
/// years); otherwise returns `None`.  Never fails.
pub fn extract(year: i32, month: i32, day: i32) -> (r: Option<Date>)
    ensures
        r is Some <==> valid_date(year as int, month as int, day as int),
        r matches Some(d) ==> d == (Date { year, month, day }),
        opt_wf(r),
{
    if month < 1 || month > 12 || day < 1 {
        return None;
    }
    let max_day: i32 = if month == 2 {
        if is_leap_year_exec(year) {
            29
        } else {
            28
        }
    } else if month == 4 || month == 6 || month == 9 || month == 11 {
        30
    } else {
        31
    };
    if day > max_day {
        None
    } else {
        Some(Date { year, month, day })
    }
}

/// The date component encoded by a timestamp string under the fixed
/// full-precision format, or `None` where the string does not parse.
/// Names the result of chrono's `NaiveDate::parse_from_str` with the
/// ISO 8601 format specifier, which depends on the string alone.
pub uninterp spec fn ts_date_of(s: Seq<char>) -> Option<(int, int, int)>;

/// Parses the date component of a full-precision ISO 8601 timestamp
/// (e.g. `2024-03-01T10:00:00Z`).
///
/// Relies on chrono's `NaiveDate::parse_from_str` with the `%+` format:
/// it accepts exactly the well-formed ISO 8601 timestamps, returns the
/// date component, and every date chrono produces is a real calendar date.
#[verifier::external_body]
pub fn parse_timestamp(s: &str) -> (r: Option<Date>)
    ensures
        opt_triple(r) == ts_date_of(s@),
        opt_wf(r),
{
    match chrono::NaiveDate::parse_from_str(s, "%+") {
        Ok(d) => Some(Date { year: d.year(), month: d.month() as i32, day: d.day() as i32 }),
        Err(_) => None,
    }
}

} // verus!
