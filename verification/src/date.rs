//! Calendar dates and day-range enumeration.
//!
//! Dates are proleptic Gregorian, restricted to the years 1 through 9999.
//! `day_number` maps a valid date to its ordinal day count, which makes the
//! day-range enumeration contract exact: `iter_days(from, to)` returns one
//! entry per day of the inclusive range, in ascending order.

use vstd::prelude::*;

verus! {

/// A calendar date (proleptic Gregorian), month and day 1-based.
#[derive(Clone, Copy, PartialEq, Eq, Structural, Debug)]
pub struct Date {
    pub year: u32,
    pub month: u8,
    pub day: u8,
}

pub open spec fn is_leap_year(y: int) -> bool {
    (y % 4 == 0 && y % 100 != 0) || y % 400 == 0
}

pub open spec fn spec_days_in_month(y: int, m: int) -> int {
    if m == 2 {
        if is_leap_year(y) {
            29
        } else {
            28
        }
    } else if m == 4 || m == 6 || m == 9 || m == 11 {
        30
    } else {
        31
    }
}

/// Days of year `y` that lie before month `m` (months counted 1 through 12).
pub open spec fn days_before_month(y: int, m: int) -> int
    decreases m,
{
    if m <= 1 {
        0
    } else {
        days_before_month(y, m - 1) + spec_days_in_month(y, m - 1)
    }
}

/// Days that lie before January 1st of year `y` (counted from year 1).
pub open spec fn days_before_year(y: int) -> int
    decreases y,
{
    if y <= 1 {
        0
    } else {
        days_before_year(y - 1) + if is_leap_year(y - 1) {
            366int
        } else {
            365int
        }
    }
}

/// The ordinal number of a date: 0 for January 1st of year 1, increasing by
/// one per calendar day.
pub open spec fn day_number(d: Date) -> int {
    days_before_year(d.year as int) + days_before_month(d.year as int, d.month as int) + d.day - 1
}

impl Date {
    pub open spec fn valid(self) -> bool {
        &&& 1 <= self.year <= 9999
        &&& 1 <= self.month <= 12
        &&& 1 <= self.day <= spec_days_in_month(self.year as int, self.month as int)
    }

    /// The last representable date; its successor would leave the supported range.
    pub open spec fn is_max(self) -> bool {
        self.year == 9999 && self.month == 12 && self.day == 31
    }

    pub fn new(year: u32, month: u8, day: u8) -> (r: Option<Date>)
        ensures
            ({
                let d = Date { year, month, day };
                match r {
                    Some(v) => v == d && d.valid(),
                    None => !d.valid(),
                }
            }),
    {
        let d = Date { year, month, day };
        if 1 <= year && year <= 9999 && 1 <= month && month <= 12 && 1 <= day && day
            <= days_in_month(year, month) {
            Some(d)
        } else {
            None
        }
    }

    pub fn is_valid(&self) -> (r: bool)
        ensures
            r == self.valid(),
    {
        1 <= self.year && self.year <= 9999 && 1 <= self.month && self.month <= 12 && 1 <= self.day
            && self.day <= days_in_month(self.year, self.month)
    }

    /// The next calendar day.
    pub fn succ(self) -> (r: Date)
        requires
            self.valid(),
            !self.is_max(),
        ensures
            r.valid(),
            day_number(r) == day_number(self) + 1,
    {
        let dim = days_in_month(self.year, self.month);
        if self.day < dim {
            Date { year: self.year, month: self.month, day: self.day + 1 }
        } else if self.month < 12 {
            proof {
                assert(days_before_month(self.year as int, self.month as int + 1)
                    == days_before_month(self.year as int, self.month as int)
                    + spec_days_in_month(self.year as int, self.month as int));
            }
            Date { year: self.year, month: self.month + 1, day: 1 }
        } else {
            proof {
                lemma_days_in_year(self.year as int);
            }
            Date { year: self.year + 1, month: 1, day: 1 }
        }
    }
}

pub fn is_leap(year: u32) -> (r: bool)
    ensures
        r == is_leap_year(year as int),
{
    (year % 4 == 0 && year % 100 != 0) || year % 400 == 0
}

pub fn days_in_month(year: u32, month: u8) -> (r: u8)
    ensures
        r == spec_days_in_month(year as int, month as int),
{
    if month == 2 {
        if is_leap(year) {
            29
        } else {
            28
        }
    } else if month == 4 || month == 6 || month == 9 || month == 11 {
        30
    } else {
        31
    }
}

/// The months of a year account for 365 days, or 366 in a leap year.
proof fn lemma_days_in_year(y: int)
    ensures
        days_before_month(y, 13) == if is_leap_year(y) {
            366int
        } else {
            365int
        },
{
    reveal_with_fuel(days_before_month, 13);
}

proof fn lemma_days_before_month_monotone(y: int, m1: int, m2: int)
    requires
        m1 <= m2,
    ensures
        days_before_month(y, m1) <= days_before_month(y, m2),
    decreases m2 - m1,
{
    if m1 < m2 {
        lemma_days_before_month_monotone(y, m1, m2 - 1);
    }
}

proof fn lemma_days_before_year_monotone(y1: int, y2: int)
    requires
        y1 <= y2,
    ensures
        days_before_year(y1) <= days_before_year(y2),
    decreases y2 - y1,
{
    if y1 < y2 {
        lemma_days_before_year_monotone(y1, y2 - 1);
    }
}

/// A valid date's ordinal lies within its year's span of days.
proof fn lemma_day_number_bounds(d: Date)
    requires
        d.valid(),
    ensures
        days_before_year(d.year as int) <= day_number(d),
        day_number(d) < days_before_year(d.year as int + 1),
{
    let y = d.year as int;
    let m = d.month as int;
    lemma_days_before_month_monotone(y, 1, m);
    assert(days_before_month(y, m + 1) == days_before_month(y, m) + spec_days_in_month(y, m));
    lemma_days_before_month_monotone(y, m + 1, 13);
    lemma_days_in_year(y);
}

/// Lexicographic order on (year, month, day) agrees with ordinal order.
proof fn lemma_lex_lt_day_number(a: Date, b: Date)
    requires
        a.valid(),
        b.valid(),
        a.year < b.year || (a.year == b.year && a.month < b.month) || (a.year == b.year && a.month
            == b.month && a.day < b.day),
    ensures
        day_number(a) < day_number(b),
{
    if a.year < b.year {
        lemma_day_number_bounds(a);
        lemma_days_before_year_monotone(a.year as int + 1, b.year as int);
        lemma_day_number_bounds(b);
    } else if a.month < b.month {
        let y = a.year as int;
        assert(days_before_month(y, a.month as int + 1) == days_before_month(y, a.month as int)
            + spec_days_in_month(y, a.month as int));
        lemma_days_before_month_monotone(y, a.month as int + 1, b.month as int);
    }
}

/// Distinct valid dates have distinct ordinals.
pub proof fn lemma_day_number_injective(a: Date, b: Date)
    requires
        a.valid(),
        b.valid(),
        day_number(a) == day_number(b),
    ensures
        a == b,
{
    if a != b {
        if a.year < b.year || (a.year == b.year && a.month < b.month) || (a.year == b.year
            && a.month == b.month && a.day < b.day) {
            lemma_lex_lt_day_number(a, b);
        } else {
            lemma_lex_lt_day_number(b, a);
        }
    }
}

/// Whether `a` falls on or before `b` in the calendar.
pub fn date_le(a: Date, b: Date) -> (r: bool)
    requires
        a.valid(),
        b.valid(),
    ensures
        r == (day_number(a) <= day_number(b)),
{
    proof {
        if a.year < b.year || (a.year == b.year && a.month < b.month) || (a.year == b.year
            && a.month == b.month && a.day < b.day) {
            lemma_lex_lt_day_number(a, b);
        } else if b.year < a.year || (b.year == a.year && b.month < a.month) || (b.year == a.year
            && b.month == a.month && b.day < a.day) {
            lemma_lex_lt_day_number(b, a);
        }
    }
    if a.year != b.year {
        a.year < b.year
    } else if a.month != b.month {
        a.month < b.month
    } else {
        a.day <= b.day
    }
}

/// Every valid date falls on or before the last representable one.
proof fn lemma_day_number_le_max(d: Date)
    requires
        d.valid(),
    ensures
        day_number(d) <= day_number(Date { year: 9999, month: 12, day: 31 }),
{
    let top = Date { year: 9999, month: 12, day: 31 };
    if d != top {
        lemma_lex_lt_day_number(d, top);
    }
}

/// Every day of the inclusive range `[from, to]`, in ascending order.
///
/// When `from <= to` the result holds exactly `day_number(to) -
/// day_number(from) + 1` dates, the i-th being the i-th day after `from`;
/// an empty range yields no days.
pub fn iter_days(from: Date, to: Date) -> (r: Vec<Date>)
    requires
        from.valid(),
        to.valid(),
    ensures
        day_number(from) > day_number(to) ==> r@.len() == 0,
        day_number(from) <= day_number(to) ==> r@.len() == day_number(to) - day_number(from) + 1,
        forall|i: int|
            0 <= i < r@.len() ==> (#[trigger] r@[i]).valid() && day_number(r@[i]) == day_number(
                from,
            ) + i,
{
    let mut days: Vec<Date> = Vec::new();
    if date_le(from, to) {
        let mut cur = from;
        let mut done = false;
        while !done
            invariant
                from.valid(),
                to.valid(),
                cur.valid(),
                day_number(from) <= day_number(cur) <= day_number(to),
                !done ==> days@.len() == day_number(cur) - day_number(from),
                done ==> cur == to && days@.len() == day_number(to) - day_number(from) + 1,
                forall|i: int|
                    0 <= i < days@.len() ==> (#[trigger] days@[i]).valid() && day_number(days@[i])
                        == day_number(from) + i,
            decreases day_number(to) - day_number(cur) + if done {
                0int
            } else {
                1int
            },
        {
            days.push(cur);
            if cur == to {
                done = true;
            } else {
                proof {
                    if day_number(cur) == day_number(to) {
                        lemma_day_number_injective(cur, to);
                    }
                    if cur.is_max() {
                        lemma_day_number_le_max(to);
                    }
                }
                cur = cur.succ();
            }
        }
    }
    days
}

} // verus!
