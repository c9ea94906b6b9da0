//! Calendar dates as plain numbers, with the little arithmetic the decoder
//! needs: validity, the successor date, and the weekday.

use vstd::arithmetic::div_mod::lemma_div_is_ordered_by_denominator;
use vstd::prelude::*;

verus! {

/// A proleptic-Gregorian calendar date held as plain year/month/day numbers.
#[derive(Clone, Copy, Debug, PartialEq, Eq, Structural)]
pub struct Date {
    pub year: u16,
    pub month: u8,
    pub day: u8,
}

pub open spec fn is_leap_year(y: int) -> bool {
    y % 4 == 0 && (y % 100 != 0 || y % 400 == 0)
}

pub open spec fn spec_days_in_month(y: int, m: int) -> int {
    if m == 2 {
        if is_leap_year(y) {
            29
        } else {
            28
        }
    } else if m == 4 || m == 6 || m == 9 || m == 11 {
        30
    } else {
        31
    }
}

impl Date {
    /// Dates the decoder works with.  Document dates have four-digit years;
    /// one extra year is allowed so that the successor of the largest
    /// four-digit date is still representable.
    pub open spec fn valid(self) -> bool {
        &&& self.year <= 10000
        &&& 1 <= self.month <= 12
        &&& 1 <= self.day <= spec_days_in_month(self.year as int, self.month as int)
    }
}

pub fn days_in_month(year: u16, month: u8) -> (r: u8)
    requires
        1 <= month <= 12,
    ensures
        r as int == spec_days_in_month(year as int, month as int),
{
    if month == 2 {
        if year % 4 == 0 && (year % 100 != 0 || year % 400 == 0) {
            29
        } else {
            28
        }
    } else if month == 4 || month == 6 || month == 9 || month == 11 {
        30
    } else {
        31
    }
}

pub open spec fn spec_next_day(d: Date) -> Date {
    if d.day < spec_days_in_month(d.year as int, d.month as int) {
        Date { year: d.year, month: d.month, day: (d.day + 1) as u8 }
    } else if d.month < 12 {
        Date { year: d.year, month: (d.month + 1) as u8, day: 1 }
    } else {
        Date { year: (d.year + 1) as u16, month: 1, day: 1 }
    }
}

/// The date `n` days after `d`.
pub open spec fn spec_date_plus(d: Date, n: int) -> Date
    decreases n,
{
    if n <= 0 {
        d
    } else {
        spec_next_day(spec_date_plus(d, n - 1))
    }
}

/// The calendar day immediately after `d`.
pub fn next_day(d: Date) -> (r: Date)
    requires
        d.valid(),
        d.year <= 9999,
    ensures
        r == spec_next_day(d),
        r.valid(),
{
    let dim = days_in_month(d.year, d.month);
    if d.day < dim {
        Date { year: d.year, month: d.month, day: d.day + 1 }
    } else if d.month < 12 {
        Date { year: d.year, month: d.month + 1, day: 1 }
    } else {
        Date { year: d.year + 1, month: 1, day: 1 }
    }
}

/// Leap years among the years `0, 1, ..., y - 1` (year 0 is a leap year).
pub open spec fn spec_leap_years_before(y: int) -> int {
    if y <= 0 {
        0
    } else {
        1 + (y - 1) / 4 - (y - 1) / 100 + (y - 1) / 400
    }
}

/// Days in the months of year `y` that precede month `m`.
pub open spec fn spec_days_before_month(y: int, m: int) -> int {
    let base: int = if m <= 1 {
        0
    } else if m == 2 {
        31
    } else if m == 3 {
        59
    } else if m == 4 {
        90
    } else if m == 5 {
        120
    } else if m == 6 {
        151
    } else if m == 7 {
        181
    } else if m == 8 {
        212
    } else if m == 9 {
        243
    } else if m == 10 {
        273
    } else if m == 11 {
        304
    } else {
        334
    };
    base + if m >= 3 && is_leap_year(y) {
        1int
    } else {
        0int
    }
}

/// Days from the start of year 0 up to (and not counting) `d`.
pub open spec fn spec_day_number(d: Date) -> int {
    365 * d.year + spec_leap_years_before(d.year as int) + spec_days_before_month(
        d.year as int,
        d.month as int,
    ) + d.day - 1
}

/// The weekday of `d`, counted `0` = Monday through `6` = Sunday.
/// Day 0 (the first day of year 0) is a Saturday.
pub open spec fn spec_weekday_index(d: Date) -> int {
    (spec_day_number(d) + 5) % 7
}

/// The weekday of a date, computed from its day number.
pub fn weekday_index(d: Date) -> (r: u8)
    requires
        d.valid(),
    ensures
        r as int == spec_weekday_index(d),
        r < 7,
{
    let y = d.year as u64;
    let leaps: u64 = if y == 0 {
        0
    } else {
        proof {
            lemma_div_is_ordered_by_denominator(y - 1, 4, 100);
        }
        1 + (y - 1) / 4 - (y - 1) / 100 + (y - 1) / 400
    };
    let before_month: u64 = days_before_month(d.year, d.month);
    let dn: u64 = 365 * y + leaps + before_month + d.day as u64 - 1;
    ((dn + 5) % 7) as u8
}

pub open spec fn is_digit(c: char) -> bool {
    '0' <= c && c <= '9'
}

pub open spec fn digit_val(c: char) -> int {
    c as int - '0' as int
}

/// A date literal is exactly `YYYY-MM-DD` and names an existing calendar day.
pub open spec fn spec_parse_date(s: Seq<char>) -> Option<Date> {
    if s.len() == 10 && is_digit(s[0]) && is_digit(s[1]) && is_digit(s[2]) && is_digit(s[3]) && s[4]
        == '-' && is_digit(s[5]) && is_digit(s[6]) && s[7] == '-' && is_digit(s[8]) && is_digit(
        s[9],
    ) {
        let y = 1000 * digit_val(s[0]) + 100 * digit_val(s[1]) + 10 * digit_val(s[2]) + digit_val(
            s[3],
        );
        let m = 10 * digit_val(s[5]) + digit_val(s[6]);
        let d = 10 * digit_val(s[8]) + digit_val(s[9]);
        if 1 <= m <= 12 && 1 <= d <= spec_days_in_month(y, m) {
            Some(Date { year: y as u16, month: m as u8, day: d as u8 })
        } else {
            None
        }
    } else {
        None
    }
}

fn is_digit_char(c: char) -> (r: bool)
    ensures
        r == is_digit(c),
{
    '0' <= c && c <= '9'
}

fn digit_value(c: char) -> (r: u8)
    requires
        is_digit(c),
    ensures
        r as int == digit_val(c),
        r <= 9,
{
    (c as u32 - '0' as u32) as u8
}

/// Decode an ISO-8601 calendar date literal.
pub fn parse_date(s: &str) -> (r: Option<Date>)
    ensures
        r == spec_parse_date(s@),
        r matches Some(d) ==> d.valid() && d.year <= 9999,
{
    if s.unicode_len() != 10 {
        return None;
    }
    let c0 = s.get_char(0);
    let c1 = s.get_char(1);
    let c2 = s.get_char(2);
    let c3 = s.get_char(3);
    let c5 = s.get_char(5);
    let c6 = s.get_char(6);
    let c8 = s.get_char(8);
    let c9 = s.get_char(9);
    if !(is_digit_char(c0) && is_digit_char(c1) && is_digit_char(c2) && is_digit_char(c3)
        && s.get_char(4) == '-' && is_digit_char(c5) && is_digit_char(c6) && s.get_char(7) == '-'
        && is_digit_char(c8) && is_digit_char(c9)) {
        return None;
    }
    let year: u16 = 1000 * digit_value(c0) as u16 + 100 * digit_value(c1) as u16 + 10
        * digit_value(c2) as u16 + digit_value(c3) as u16;
    let month: u8 = 10 * digit_value(c5) + digit_value(c6);
    let day: u8 = 10 * digit_value(c8) + digit_value(c9);
    if 1 <= month && month <= 12 && 1 <= day && day <= days_in_month(year, month) {
        Some(Date { year, month, day })
    } else {
        None
    }
}

/// The three-letter label of a weekday index (`0` = Monday).
pub open spec fn spec_weekday_abbrev(w: int) -> Seq<char> {
    if w == 0 {
        "Mon"@
    } else if w == 1 {
        "Tue"@
    } else if w == 2 {
        "Wed"@
    } else if w == 3 {
        "Thu"@
    } else if w == 4 {
        "Fri"@
    } else if w == 5 {
        "Sat"@
    } else {
        "Sun"@
    }
}

pub fn weekday_abbrev(w: u8) -> (r: &'static str)
    requires
        w < 7,
    ensures
        r@ == spec_weekday_abbrev(w as int),
{
    match w {
        0 => "Mon",
        1 => "Tue",
        2 => "Wed",
        3 => "Thu",
        4 => "Fri",
        5 => "Sat",
        _ => "Sun",
    }
}

fn days_before_month(year: u16, month: u8) -> (r: u64)
    requires
        1 <= month <= 12,
    ensures
        r as int == spec_days_before_month(year as int, month as int),
{
    let base: u64 = if month == 1 {
        0
    } else if month == 2 {
        31
    } else if month == 3 {
        59
    } else if month == 4 {
        90
    } else if month == 5 {
        120
    } else if month == 6 {
        151
    } else if month == 7 {
        181
    } else if month == 8 {
        212
    } else if month == 9 {
        243
    } else if month == 10 {
        273
    } else if month == 11 {
        304
    } else {
        334
    };
    if month >= 3 && (year % 4 == 0 && (year % 100 != 0 || year % 400 == 0)) {
        base + 1
    } else {
        base
    }
}

} // verus!
