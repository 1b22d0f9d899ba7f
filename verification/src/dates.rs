//! Civil calendar dates.
//!
//! The cost report keys its rows by `YYYY-MM-DD` strings; the engine turns
//! those into day numbers so that "within the last week" and "equal to today"
//! become integer comparisons. Dates are proleptic Gregorian with four-digit
//! years, which is all the report's date convention can carry.

use vstd::prelude::*;

use crate::text::{pad2, pad4, spec_pad2, spec_pad4};

verus! {

/// A calendar date with a four-digit year.
#[derive(Debug, Clone, Copy, PartialEq, Eq, Structural)]
pub struct Date {
    pub year: u32,
    pub month: u32,
    pub day: u32,
}

pub open spec fn is_leap_year(y: int) -> bool {
    (y % 4 == 0 && y % 100 != 0) || y % 400 == 0
}

pub open spec fn spec_days_in_month(y: int, m: int) -> int {
    if m == 1 || m == 3 || m == 5 || m == 7 || m == 8 || m == 10 || m == 12 {
        31
    } else if m == 4 || m == 6 || m == 9 || m == 11 {
        30
    } else if is_leap_year(y) {
        29
    } else {
        28
    }
}

/// A date the engine accepts: four-digit year, real month and day.
pub open spec fn valid_date(d: Date) -> bool {
    &&& 1 <= d.year <= 9999
    &&& 1 <= d.month <= 12
    &&& 1 <= d.day <= spec_days_in_month(d.year as int, d.month as int)
}

/// The day number of a date: days since 1970-01-01 of the civil calendar.
/// Consecutive dates have consecutive day numbers, so date order and date
/// distance are order and distance of day numbers.
pub open spec fn spec_day_number(d: Date) -> int {
    let y = if d.month <= 2 {
        d.year - 1
    } else {
        d.year as int
    };
    let era = y / 400;
    let yoe = y - era * 400;
    let mp = if d.month > 2 {
        d.month - 3
    } else {
        d.month + 9
    };
    let doy = (153 * mp + 2) / 5 + d.day - 1;
    let doe = yoe * 365 + yoe / 4 - yoe / 100 + doy;
    era * 146097 + doe - 719468
}

pub fn days_in_month(y: u32, m: u32) -> (r: u32)
    requires
        1 <= m <= 12,
    ensures
        r == spec_days_in_month(y as int, m as int),
{
    if m == 1 || m == 3 || m == 5 || m == 7 || m == 8 || m == 10 || m == 12 {
        31
    } else if m == 4 || m == 6 || m == 9 || m == 11 {
        30
    } else if (y % 4 == 0 && y % 100 != 0) || y % 400 == 0 {
        29
    } else {
        28
    }
}

pub fn day_number(d: Date) -> (r: i64)
    requires
        valid_date(d),
    ensures
        r == spec_day_number(d),
{
    let y: i64 = if d.month <= 2 {
        d.year as i64 - 1
    } else {
        d.year as i64
    };
    let era: i64 = y / 400;
    let yoe: i64 = y - era * 400;
    let mp: i64 = if d.month > 2 {
        d.month as i64 - 3
    } else {
        d.month as i64 + 9
    };
    let doy: i64 = (153 * mp + 2) / 5 + d.day as i64 - 1;
    let doe: i64 = yoe * 365 + yoe / 4 - yoe / 100 + doy;
    era * 146097 + doe - 719468
}

/// The calendar day just before `d`; saturates at the first representable
/// date, so stepping far back never fails.
pub open spec fn spec_prev_day(d: Date) -> Date {
    if d.year == 1 && d.month == 1 && d.day == 1 {
        d
    } else if d.day > 1 {
        Date { year: d.year, month: d.month, day: (d.day - 1) as u32 }
    } else if d.month > 1 {
        Date {
            year: d.year,
            month: (d.month - 1) as u32,
            day: spec_days_in_month(d.year as int, d.month - 1) as u32,
        }
    } else {
        Date { year: (d.year - 1) as u32, month: 12, day: 31 }
    }
}

/// The date `n` calendar days before `d` (saturating at the calendar origin).
pub open spec fn spec_sub_days(d: Date, n: nat) -> Date
    decreases n,
{
    if n == 0 {
        d
    } else {
        spec_sub_days(spec_prev_day(d), (n - 1) as nat)
    }
}

pub fn prev_day(d: Date) -> (r: Date)
    requires
        valid_date(d),
    ensures
        r == spec_prev_day(d),
        valid_date(r),
{
    if d.year == 1 && d.month == 1 && d.day == 1 {
        d
    } else if d.day > 1 {
        Date { year: d.year, month: d.month, day: d.day - 1 }
    } else if d.month > 1 {
        Date { year: d.year, month: d.month - 1, day: days_in_month(d.year, d.month - 1) }
    } else {
        Date { year: d.year - 1, month: 12, day: 31 }
    }
}

/// Steps `d` back by `n` days, one calendar day at a time.
pub fn sub_days(d: Date, n: u32) -> (r: Date)
    requires
        valid_date(d),
    ensures
        r == spec_sub_days(d, n as nat),
        valid_date(r),
{
    let mut cur = d;
    let mut i: u32 = 0;
    while i < n
        invariant
            i <= n,
            valid_date(cur),
            cur == spec_sub_days(d, i as nat),
            valid_date(d),
        decreases n - i,
    {
        proof {
            lemma_sub_days_step(d, i as nat);
        }
        cur = prev_day(cur);
        i = i + 1;
    }
    cur
}

pub open spec fn is_digit(c: char) -> bool {
    48 <= c as u32 <= 57
}

pub open spec fn digit_of(c: char) -> int {
    c as u32 - 48
}

/// The date written by a `YYYY-MM-DD` string: exactly ten characters, two
/// hyphens, eight digits, naming a real calendar date. Anything else is
/// malformed and parses to nothing.
pub open spec fn spec_parse_date(s: Seq<char>) -> Option<Date> {
    if s.len() == 10 && s[4] == '-' && s[7] == '-' && is_digit(s[0]) && is_digit(s[1]) && is_digit(
        s[2],
    ) && is_digit(s[3]) && is_digit(s[5]) && is_digit(s[6]) && is_digit(s[8]) && is_digit(s[9]) {
        let date = Date {
            year: (digit_of(s[0]) * 1000 + digit_of(s[1]) * 100 + digit_of(s[2]) * 10 + digit_of(
                s[3],
            )) as u32,
            month: (digit_of(s[5]) * 10 + digit_of(s[6])) as u32,
            day: (digit_of(s[8]) * 10 + digit_of(s[9])) as u32,
        };
        if valid_date(date) {
            Some(date)
        } else {
            None
        }
    } else {
        None
    }
}

/// Reads a `YYYY-MM-DD` date string.
pub fn parse_date(s: &str) -> (r: Option<Date>)
    ensures
        r == spec_parse_date(s@),
{
    if s.unicode_len() != 10 {
        return None;
    }
    if s.get_char(4) != '-' || s.get_char(7) != '-' {
        return None;
    }
    let d0 = s.get_char(0) as u32;
    let d1 = s.get_char(1) as u32;
    let d2 = s.get_char(2) as u32;
    let d3 = s.get_char(3) as u32;
    let d5 = s.get_char(5) as u32;
    let d6 = s.get_char(6) as u32;
    let d8 = s.get_char(8) as u32;
    let d9 = s.get_char(9) as u32;
    if !(48 <= d0 && d0 <= 57 && 48 <= d1 && d1 <= 57 && 48 <= d2 && d2 <= 57 && 48 <= d3 && d3
        <= 57 && 48 <= d5 && d5 <= 57 && 48 <= d6 && d6 <= 57 && 48 <= d8 && d8 <= 57 && 48 <= d9
        && d9 <= 57) {
        return None;
    }
    let date = Date {
        year: (d0 - 48) * 1000 + (d1 - 48) * 100 + (d2 - 48) * 10 + (d3 - 48),
        month: (d5 - 48) * 10 + (d6 - 48),
        day: (d8 - 48) * 10 + (d9 - 48),
    };
    let ok = 1 <= date.year && 1 <= date.month && date.month <= 12 && 1 <= date.day && date.day
        <= days_in_month(date.year, date.month);
    if ok {
        Some(date)
    } else {
        None
    }
}

/// The `YYYYMMDD` rendering of a date, zero-padded in every field; this is
/// the cost tool's date-argument convention.
pub open spec fn spec_yyyymmdd(d: Date) -> Seq<char> {
    spec_pad4(d.year as int) + spec_pad2(d.month as int) + spec_pad2(d.day as int)
}

pub fn format_yyyymmdd(d: Date) -> (r: String)
    requires
        valid_date(d),
    ensures
        r@ == spec_yyyymmdd(d),
{
    let r = pad4(d.year).concat(pad2(d.month).as_str()).concat(pad2(d.day).as_str());
    assert(r@ =~= spec_yyyymmdd(d));
    r
}

/// Stepping back one more day extends the chain of `spec_prev_day` steps.
proof fn lemma_sub_days_step(d: Date, i: nat)
    ensures
        spec_sub_days(d, i + 1) == spec_prev_day(spec_sub_days(d, i)),
    decreases i,
{
    if i == 0 {
        assert(spec_sub_days(d, 1) == spec_sub_days(spec_prev_day(d), 0));
    } else {
        lemma_sub_days_step(spec_prev_day(d), (i - 1) as nat);
        assert(spec_sub_days(d, i + 1) == spec_sub_days(spec_prev_day(d), i));
        assert(spec_sub_days(d, i) == spec_sub_days(spec_prev_day(d), (i - 1) as nat));
    }
}

} // verus!
