//! A plain calendar date with exact Gregorian rules: leap years, month
//! lengths and day-by-day successor. The engine computes budget-period
//! boundaries and forecast dates with it.

use vstd::prelude::*;

verus! {

/// Lowest year a well-formed date may carry.
pub const YEAR_MIN: i32 = 1;

/// Highest year a well-formed date may carry; keeps successor arithmetic
/// far from any machine limit.
pub const YEAR_MAX: i32 = 999_999;

/// Gregorian leap-year rule.
pub open spec fn is_leap_year(y: int) -> bool {
    (y % 4 == 0 && y % 100 != 0) || y % 400 == 0
}

/// Number of days in the given month of the given year.
pub open spec fn spec_days_in_month(y: int, m: int) -> int {
    if m == 2 {
        if is_leap_year(y) {
            29
        } else {
            28
        }
    } else if m == 4 || m == 6 || m == 9 || m == 11 {
        30
    } else {
        31
    }
}

/// A calendar date.
#[derive(Clone, Copy, Debug, PartialEq, Eq, Structural)]
pub struct Date {
    pub year: i32,
    pub month: u8,
    pub day: u8,
}

impl Date {
    /// A real calendar date within the supported year range.
    pub open spec fn wf(&self) -> bool {
        &&& YEAR_MIN <= self.year <= YEAR_MAX
        &&& 1 <= self.month <= 12
        &&& 1 <= self.day <= spec_days_in_month(self.year as int, self.month as int)
    }

    pub fn new(year: i32, month: u8, day: u8) -> (r: Option<Date>)
        ensures
            r is Some <==> ({
                &&& YEAR_MIN <= year <= YEAR_MAX
                &&& 1 <= month <= 12
                &&& 1 <= day <= spec_days_in_month(year as int, month as int)
            }),
            r is Some ==> ({
                &&& r.unwrap().year == year
                &&& r.unwrap().month == month
                &&& r.unwrap().day == day
                &&& r.unwrap().wf()
            }),
    {
        if YEAR_MIN <= year && year <= YEAR_MAX && 1 <= month && month <= 12 && 1 <= day
            && day <= days_in_month(year, month) {
            Some(Date { year, month, day })
        } else {
            None
        }
    }
}

/// Whether `y` is a leap year.
pub fn leap_year(y: i32) -> (r: bool)
    requires
        y >= 1,
    ensures
        r == is_leap_year(y as int),
{
    let yu = y as u32;
    (yu % 4 == 0 && yu % 100 != 0) || yu % 400 == 0
}

/// Number of days in the given month.
pub fn days_in_month(y: i32, m: u8) -> (r: u8)
    requires
        y >= 1,
        1 <= m <= 12,
    ensures
        r == spec_days_in_month(y as int, m as int),
{
    if m == 2 {
        if leap_year(y) {
            29
        } else {
            28
        }
    } else if m == 4 || m == 6 || m == 9 || m == 11 {
        30
    } else {
        31
    }
}

/// The day after `d`.
pub open spec fn spec_next_day(d: Date) -> Date {
    if d.day < spec_days_in_month(d.year as int, d.month as int) {
        Date { year: d.year, month: d.month, day: (d.day + 1) as u8 }
    } else if d.month < 12 {
        Date { year: d.year, month: (d.month + 1) as u8, day: 1 }
    } else {
        Date { year: (d.year + 1) as i32, month: 1, day: 1 }
    }
}

/// The date `n` days after `d`.
pub open spec fn spec_plus_days(d: Date, n: nat) -> Date
    decreases n,
{
    if n == 0 {
        d
    } else {
        spec_next_day(spec_plus_days(d, (n - 1) as nat))
    }
}

/// The day after `d`.
pub fn next_day(d: Date) -> (r: Date)
    requires
        d.wf(),
        d.year < YEAR_MAX,
    ensures
        r == spec_next_day(d),
        r.wf(),
{
    let dim = days_in_month(d.year, d.month);
    if d.day < dim {
        Date { year: d.year, month: d.month, day: d.day + 1 }
    } else if d.month < 12 {
        Date { year: d.year, month: d.month + 1, day: 1 }
    } else {
        Date { year: d.year + 1, month: 1, day: 1 }
    }
}

} // verus!
