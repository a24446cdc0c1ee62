//! Calendar dates.

use chrono::Datelike;
use vstd::prelude::*;
use vstd::string::StrSliceExecFns;

verus! {

/// A calendar date, without a time of day.
#[derive(Debug, Clone, Copy, PartialEq, Eq, Structural)]
pub struct Date {
    pub year: i32,
    pub month: u32,
    pub day: u32,
}

/// Whether `a` is the same day as `b` or an earlier one.
pub open spec fn date_le(a: Date, b: Date) -> bool {
    a.year < b.year || (a.year == b.year && (a.month < b.month || (a.month == b.month && a.day
        <= b.day)))
}

impl Date {
    /// Whether this day is `other` or an earlier one.
    pub fn le(&self, other: &Date) -> (r: bool)
        ensures
            r == date_le(*self, *other),
    {
        self.year < other.year || (self.year == other.year && (self.month < other.month || (
        self.month == other.month && self.day <= other.day)))
    }

    /// Whether this day is `other`.
    pub fn same(&self, other: &Date) -> (r: bool)
        ensures
            r == (*self == *other),
    {
        self.year == other.year && self.month == other.month && self.day == other.day
    }
}

/// The date that `chrono::NaiveDate::parse_from_str` reads from a text in the
/// format `%Y-%m-%d`, as year, month and day; `None` where it reads none.
pub uninterp spec fn parsed_date(text: Seq<char>) -> Option<(int, int, int)>;

/// What `parsed_date` gives, as a `Date`.
pub open spec fn date_of(text: Seq<char>) -> Option<Date> {
    match parsed_date(text) {
        Some((year, month, day)) => Some(
            (Date { year: year as i32, month: month as u32, day: day as u32 }),
        ),
        None => None,
    }
}

/// `chrono::NaiveDate::parse_from_str` with the format `%Y-%m-%d`. The year,
/// month and day of the date it reads are those that `parsed_date` names; a
/// text that it refuses gives `None`.
#[verifier::external_body]
pub(crate) fn read_date(text: &str) -> (date: Option<Date>)
    ensures
        match date {
            Some(d) => parsed_date(text@) == Some((d.year as int, d.month as int, d.day as int)),
            None => parsed_date(text@) is None,
        },
{
    match chrono::NaiveDate::parse_from_str(text, "%Y-%m-%d") {
        Ok(d) => Some(Date { year: d.year(), month: d.month(), day: d.day() }),
        Err(_) => None,
    }
}

/// Parses a calendar date written as `YYYY-MM-DD`.
pub fn parse_date(text: &str) -> (date: Option<Date>)
    ensures
        date == date_of(text@),
{
    read_date(text)
}

/// Whether a character is one of the digits `0` to `9`.
pub open spec fn is_digit(c: char) -> bool {
    '0' <= c <= '9'
}

/// The strict shape of a date: four digits, a month from `01` to `12` and a
/// day from `01` to `31`, joined by hyphens, and nothing else.
pub open spec fn is_date_shape(text: Seq<char>) -> bool {
    &&& text.len() == 10
    &&& is_digit(text[0]) && is_digit(text[1]) && is_digit(text[2]) && is_digit(text[3])
    &&& text[4] == '-'
    &&& ((text[5] == '0' && '1' <= text[6] <= '9') || (text[5] == '1' && '0' <= text[6] <= '2'))
    &&& text[7] == '-'
    &&& ((text[8] == '0' && '1' <= text[9] <= '9') || (('1' <= text[8] <= '2') && is_digit(
        text[9],
    )) || (text[8] == '3' && '0' <= text[9] <= '1'))
}

/// Whether a character is one of the digits `0` to `9`.
fn digit(c: char) -> (r: bool)
    ensures
        r == is_digit(c),
{
    '0' <= c && c <= '9'
}

/// Whether a text has the strict shape of a date.
pub fn has_date_shape(text: &str) -> (r: bool)
    ensures
        r == is_date_shape(text@),
{
    if text.unicode_len() != 10 {
        return false;
    }
    let c0 = text.get_char(0);
    let c1 = text.get_char(1);
    let c2 = text.get_char(2);
    let c3 = text.get_char(3);
    let c4 = text.get_char(4);
    let c5 = text.get_char(5);
    let c6 = text.get_char(6);
    let c7 = text.get_char(7);
    let c8 = text.get_char(8);
    let c9 = text.get_char(9);
    let year = digit(c0) && digit(c1) && digit(c2) && digit(c3);
    let month = (c5 == '0' && '1' <= c6 && c6 <= '9') || (c5 == '1' && '0' <= c6 && c6 <= '2');
    let day = (c8 == '0' && '1' <= c9 && c9 <= '9') || ('1' <= c8 && c8 <= '2' && digit(c9)) || (c8
        == '3' && '0' <= c9 && c9 <= '1');
    year && c4 == '-' && month && c7 == '-' && day
}

} // verus!
