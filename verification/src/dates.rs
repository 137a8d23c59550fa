//! Calendar dates as plain values.
//!
//! The store keeps every date as a year / month / day triple, ordered
//! lexicographically.  The boundary accepts dates written `YYYY-MM-DD` or
//! `YYYY/MM/DD`; [`parse_date`] checks the text against the calendar
//! (month ranges, month lengths, leap years) and is verified against the
//! spec-level grammar [`spec_parse_date`].

use vstd::prelude::*;

verus! {

/// A calendar date held as plain year / month / day fields.
#[derive(Clone, Copy, Debug, PartialEq, Eq, Structural)]
pub struct Date {
    pub year: i32,
    pub month: u8,
    pub day: u8,
}

/// Years divisible by 4 are leap years, except century years not divisible
/// by 400.
pub open spec fn leap_year(y: int) -> bool {
    (y % 4 == 0 && y % 100 != 0) || y % 400 == 0
}

pub open spec fn days_in_month(y: int, m: int) -> int {
    if m == 2 {
        if leap_year(y) {
            29
        } else {
            28
        }
    } else if m == 4 || m == 6 || m == 9 || m == 11 {
        30
    } else {
        31
    }
}

/// A date that exists in the calendar, within the four-digit-year range the
/// boundary can write down.
pub open spec fn date_valid(d: Date) -> bool {
    &&& 0 <= d.year <= 9999
    &&& 1 <= d.month <= 12
    &&& 1 <= d.day <= days_in_month(d.year as int, d.month as int)
}

/// Lexicographic order on (year, month, day).
pub open spec fn date_le(a: Date, b: Date) -> bool {
    ||| a.year < b.year
    ||| (a.year == b.year && a.month < b.month)
    ||| (a.year == b.year && a.month == b.month && a.day <= b.day)
}

impl Date {
    /// `self` is on or before `other` in calendar order.
    pub fn on_or_before(self, other: Date) -> (r: bool)
        ensures
            r == date_le(self, other),
    {
        if self.year != other.year {
            self.year < other.year
        } else if self.month != other.month {
            self.month < other.month
        } else {
            self.day <= other.day
        }
    }
}

/// The placeholder deadline stored when an item has no explicit end date:
/// the last date the store can write down.
pub open spec fn far_future() -> Date {
    Date { year: 9999, month: 12, day: 31 }
}

/// The sentinel "no deadline" date, `9999-12-31`.
pub fn far_future_date() -> (r: Date)
    ensures
        r == far_future(),
{
    Date { year: 9999, month: 12, day: 31 }
}

pub open spec fn is_digit_char(c: char) -> bool {
    48 <= c as int <= 57
}

pub open spec fn digit_val(c: char) -> int {
    c as int - 48
}

pub open spec fn is_date_sep(c: char) -> bool {
    c == '-' || c == '/'
}

/// The text has the shape `YYYY-MM-DD`, with `-` or `/` at each separator.
pub open spec fn date_text_wf(s: Seq<char>) -> bool {
    &&& s.len() == 10
    &&& is_digit_char(s[0])
    &&& is_digit_char(s[1])
    &&& is_digit_char(s[2])
    &&& is_digit_char(s[3])
    &&& is_date_sep(s[4])
    &&& is_digit_char(s[5])
    &&& is_digit_char(s[6])
    &&& is_date_sep(s[7])
    &&& is_digit_char(s[8])
    &&& is_digit_char(s[9])
}

/// The date written by a well-shaped text.
pub open spec fn date_of_text(s: Seq<char>) -> Date {
    Date {
        year: (digit_val(s[0]) * 1000 + digit_val(s[1]) * 100 + digit_val(s[2]) * 10 + digit_val(
            s[3],
        )) as i32,
        month: (digit_val(s[5]) * 10 + digit_val(s[6])) as u8,
        day: (digit_val(s[8]) * 10 + digit_val(s[9])) as u8,
    }
}

/// What the boundary parser accepts: a well-shaped text naming a date that
/// exists in the calendar.
pub open spec fn spec_parse_date(s: Seq<char>) -> Option<Date> {
    if date_text_wf(s) && date_valid(date_of_text(s)) {
        Some(date_of_text(s))
    } else {
        None
    }
}

fn digit_of(c: char) -> (r: Option<u8>)
    ensures
        match r {
            Some(v) => is_digit_char(c) && v as int == digit_val(c),
            None => !is_digit_char(c),
        },
{
    let u = c as u32;
    if 48 <= u && u <= 57 {
        Some((u - 48) as u8)
    } else {
        None
    }
}

fn sep_of(c: char) -> (r: bool)
    ensures
        r == is_date_sep(c),
{
    c == '-' || c == '/'
}

fn days_in_month_of(y: i32, m: u8) -> (r: u8)
    requires
        0 <= y,
        1 <= m <= 12,
    ensures
        r as int == days_in_month(y as int, m as int),
{
    if m == 2 {
        if (y % 4 == 0 && y % 100 != 0) || y % 400 == 0 {
            29
        } else {
            28
        }
    } else if m == 4 || m == 6 || m == 9 || m == 11 {
        30
    } else {
        31
    }
}

/// Parse a boundary date text (`YYYY-MM-DD` or `YYYY/MM/DD`).  Returns
/// `None` when the shape is wrong or the date does not exist in the
/// calendar.
pub fn parse_date(s: &str) -> (r: Option<Date>)
    ensures
        r == spec_parse_date(s@),
{
    if s.unicode_len() != 10 {
        return None;
    }
    let d0 = digit_of(s.get_char(0));
    let d1 = digit_of(s.get_char(1));
    let d2 = digit_of(s.get_char(2));
    let d3 = digit_of(s.get_char(3));
    let s4 = sep_of(s.get_char(4));
    let d5 = digit_of(s.get_char(5));
    let d6 = digit_of(s.get_char(6));
    let s7 = sep_of(s.get_char(7));
    let d8 = digit_of(s.get_char(8));
    let d9 = digit_of(s.get_char(9));
    match (d0, d1, d2, d3, d5, d6, d8, d9) {
        (
            Some(y0),
            Some(y1),
            Some(y2),
            Some(y3),
            Some(m0),
            Some(m1),
            Some(a0),
            Some(a1),
        ) => {
            if !(s4 && s7) {
                return None;
            }
            let year: i32 = (y0 as i32) * 1000 + (y1 as i32) * 100 + (y2 as i32) * 10 + (y3 as i32);
            let month: u8 = m0 * 10 + m1;
            let day: u8 = a0 * 10 + a1;
            if month < 1 || month > 12 {
                return None;
            }
            if day < 1 || day > days_in_month_of(year, month) {
                return None;
            }
            Some(Date { year, month, day })
        },
        _ => None,
    }
}

} // verus!
