//! Month arithmetic for the calendar screen.
use vstd::prelude::*;

verus! {

/// A leap year of the proleptic Gregorian calendar.
pub open spec fn is_leap(y: int) -> bool {
    (y % 4 == 0 && y % 100 != 0) || y % 400 == 0
}

/// The number of days in month `m` of year `y`.
pub open spec fn month_length(y: int, m: int) -> int {
    if m == 2 {
        if is_leap(y) {
            29
        } else {
            28
        }
    } else if m == 4 || m == 6 || m == 9 || m == 11 {
        30
    } else {
        31
    }
}

/// The years that chrono's `NaiveDate` can hold.
pub open spec fn in_date_range(y: int) -> bool {
    -262143 <= y <= 262142
}

/// Whether `NaiveDate` can hold days of this year.
pub fn in_date_range_year(y: i32) -> (r: bool)
    ensures
        r == in_date_range(y as int),
{
    -262143 <= y && y <= 262142
}

/// A day of the proleptic Gregorian calendar that `NaiveDate` can hold.
pub open spec fn valid_date(y: int, m: int, d: int) -> bool {
    in_date_range(y) && 1 <= m <= 12 && 1 <= d <= month_length(y, m)
}

/// Relies on `chrono::NaiveDate::from_ymd_opt`: `Some` exactly for a day of
/// the proleptic Gregorian calendar within chrono's year range.
#[verifier::external_body]
fn is_date(y: i32, m: u32, d: u32) -> (r: bool)
    ensures
        r == valid_date(y as int, m as int, d as int),
{
    chrono::NaiveDate::from_ymd_opt(y, m, d).is_some()
}

/// The number of days in a month.
pub fn days_in_month(year: i32, month: u32) -> (r: u32)
    requires
        1 <= month <= 12,
        in_date_range(year as int),
    ensures
        r == month_length(year as int, month as int),
{
    if is_date(year, month, 31) {
        31
    } else if is_date(year, month, 30) {
        30
    } else if is_date(year, month, 29) {
        29
    } else {
        28
    }
}

pub open spec fn month_name_spec(month: u32) -> Seq<char> {
    if month == 1 {
        "January"@
    } else if month == 2 {
        "February"@
    } else if month == 3 {
        "March"@
    } else if month == 4 {
        "April"@
    } else if month == 5 {
        "May"@
    } else if month == 6 {
        "June"@
    } else if month == 7 {
        "July"@
    } else if month == 8 {
        "August"@
    } else if month == 9 {
        "September"@
    } else if month == 10 {
        "October"@
    } else if month == 11 {
        "November"@
    } else if month == 12 {
        "December"@
    } else {
        "Unknown"@
    }
}

/// The English name of a month, `Unknown` outside 1 to 12.
pub fn month_name(month: u32) -> (r: &'static str)
    ensures
        r@ == month_name_spec(month),
{
    match month {
        1 => "January",
        2 => "February",
        3 => "March",
        4 => "April",
        5 => "May",
        6 => "June",
        7 => "July",
        8 => "August",
        9 => "September",
        10 => "October",
        11 => "November",
        12 => "December",
        _ => "Unknown",
    }
}

} // verus!
