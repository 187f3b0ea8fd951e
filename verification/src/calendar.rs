//! Dates of the proleptic Gregorian calendar.

use vstd::prelude::*;

verus! {

/// The earliest year a calendar date may have.
pub const MIN_YEAR: i32 = -262143;

/// The latest year a calendar date may have.
pub const MAX_YEAR: i32 = 262142;

/// Whether `y` is a leap year of the proleptic Gregorian calendar.
pub open spec fn is_leap_year(y: int) -> bool {
    y % 4 == 0 && (y % 100 != 0 || y % 400 == 0)
}

/// The number of days of month `m` of year `y`.
pub open spec fn days_in_month(y: int, m: int) -> int {
    if m == 2 {
        if is_leap_year(y) {
            29
        } else {
            28
        }
    } else if m == 4 || m == 6 || m == 9 || m == 11 {
        30
    } else {
        31
    }
}

/// Whether `(y, m, d)` is a date of the proleptic Gregorian calendar within
/// the supported years.
pub open spec fn valid_ymd(y: int, m: int, d: int) -> bool {
    &&& MIN_YEAR <= y <= MAX_YEAR
    &&& 1 <= m <= 12
    &&& 1 <= d <= days_in_month(y, m)
}

/// Calls `chrono::NaiveDate::from_ymd_opt` and reports whether it gave a
/// date. It gives one exactly for an existing calendar day (month 1 to 12,
/// day within the month, leap years as in the proleptic Gregorian calendar)
/// of a year from `MIN_YEAR` to `MAX_YEAR`.
#[verifier::external_body]
pub(crate) fn date_exists(year: i32, month: u32, day: u32) -> (res: bool)
    ensures
        res == valid_ymd(year as int, month as int, day as int),
{
    chrono::NaiveDate::from_ymd_opt(year, month, day).is_some()
}

} // verus!
