//! Calendar dates as plain year/month/day values, with the Gregorian
//! rules needed to walk one day backward through the calendar.

use vstd::prelude::*;

verus! {

/// A Gregorian calendar date.  Years are restricted to four digits so
/// that a date always has a fixed-width ISO rendering.
#[derive(Clone, Copy, PartialEq, Eq, Structural, Debug)]
pub struct Date {
    pub year: u32,
    pub month: u32,
    pub day: u32,
}

pub open spec fn is_leap_year(y: int) -> bool {
    y % 4 == 0 && (y % 100 != 0 || y % 400 == 0)
}

pub open spec fn days_in_month(y: int, m: int) -> int {
    if m == 2 {
        if is_leap_year(y) {
            29
        } else {
            28
        }
    } else if m == 4 || m == 6 || m == 9 || m == 11 {
        30
    } else {
        31
    }
}

pub open spec fn valid_date(d: Date) -> bool {
    d.year <= 9999 && 1 <= d.month <= 12 && 1 <= d.day <= days_in_month(
        d.year as int,
        d.month as int,
    )
}

/// Strict calendar order: `a` is an earlier day than `b`.
pub open spec fn date_lt(a: Date, b: Date) -> bool {
    a.year < b.year || (a.year == b.year && (a.month < b.month || (a.month == b.month
        && a.day < b.day)))
}

/// The day before `d`, or `None` once the calendar's lower bound is hit.
pub open spec fn prev_day_spec(d: Date) -> Option<Date> {
    if d.day > 1 {
        Some(Date { year: d.year, month: d.month, day: (d.day - 1) as u32 })
    } else if d.month > 1 {
        Some(
            Date {
                year: d.year,
                month: (d.month - 1) as u32,
                day: days_in_month(d.year as int, d.month as int - 1) as u32,
            },
        )
    } else if d.year > 0 {
        Some(Date { year: (d.year - 1) as u32, month: 12, day: 31 })
    } else {
        None
    }
}

fn days_in_month_exec(year: u32, month: u32) -> (n: u32)
    requires
        1 <= month <= 12,
    ensures
        n == days_in_month(year as int, month as int),
{
    if month == 2 {
        let leap = year % 4 == 0 && (year % 100 != 0 || year % 400 == 0);
        if leap {
            29
        } else {
            28
        }
    } else if month == 4 || month == 6 || month == 9 || month == 11 {
        30
    } else {
        31
    }
}

/// Steps one day backward through the calendar.
pub fn prev_day(d: Date) -> (r: Option<Date>)
    requires
        valid_date(d),
    ensures
        r == prev_day_spec(d),
{
    if d.day > 1 {
        Some(Date { year: d.year, month: d.month, day: d.day - 1 })
    } else if d.month > 1 {
        Some(Date { year: d.year, month: d.month - 1, day: days_in_month_exec(d.year, d.month - 1) })
    } else if d.year > 0 {
        Some(Date { year: d.year - 1, month: 12, day: 31 })
    } else {
        None
    }
}

/// Stepping backward keeps a date valid and makes it strictly older, so a
/// backward search visits each day at most once, newest first.
pub proof fn lemma_prev_day_valid(d: Date)
    requires
        valid_date(d),
        prev_day_spec(d) is Some,
    ensures
        valid_date(prev_day_spec(d)->Some_0),
        date_lt(prev_day_spec(d)->Some_0, d),
{
}

} // verus!
