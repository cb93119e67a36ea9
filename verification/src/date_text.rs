//! Dates written as `DD.MM.YYYY`: what such a text must look like, which of
//! them name a day of the calendar, and the check that tells them apart.

use crate::chars::{is_ascii_digit, is_white_space};
use vstd::prelude::*;

verus! {

/// The `strftime` form of a date: day, month and year, separated by dots.
pub const DATE_FORMAT: &'static str = "%d.%m.%Y";

/// Two digits, a dot, two digits, a dot and four digits, and nothing else.
pub const DATE_PATTERN: &'static str = r"^\d{2}\.\d{2}\.\d{4}$";

/// Holds of every decimal digit of any script: within ASCII these are
/// `0` to `9`, and beyond ASCII none of them is white space.
pub open spec fn may_be_digit(c: char) -> bool {
    is_ascii_digit(c) || (c as u32 >= 0x80 && !is_white_space(c))
}

/// The characters a numeric date can be written with.
pub open spec fn is_date_char(c: char) -> bool {
    is_ascii_digit(c) || c == '.' || c == '+' || c == '-' || is_white_space(c)
}

/// Ten characters: dots third and sixth, and around them what may be
/// decimal digits of any script.
pub open spec fn has_date_layout(s: Seq<char>) -> bool {
    &&& s.len() == 10
    &&& may_be_digit(s[0]) && may_be_digit(s[1])
    &&& s[2] == '.'
    &&& may_be_digit(s[3]) && may_be_digit(s[4])
    &&& s[5] == '.'
    &&& may_be_digit(s[6]) && may_be_digit(s[7]) && may_be_digit(s[8]) && may_be_digit(s[9])
}

/// `DD.MM.YYYY` in ASCII digits.
pub open spec fn is_date_shape(s: Seq<char>) -> bool {
    &&& s.len() == 10
    &&& is_ascii_digit(s[0]) && is_ascii_digit(s[1])
    &&& s[2] == '.'
    &&& is_ascii_digit(s[3]) && is_ascii_digit(s[4])
    &&& s[5] == '.'
    &&& is_ascii_digit(s[6]) && is_ascii_digit(s[7]) && is_ascii_digit(s[8]) && is_ascii_digit(
        s[9],
    )
}

/// The number a digit stands for.
pub open spec fn digit_value(c: char) -> int {
    c as int - '0' as int
}

/// The day that a `DD.MM.YYYY` names.
pub open spec fn day_of(s: Seq<char>) -> int {
    10 * digit_value(s[0]) + digit_value(s[1])
}

/// The month that a `DD.MM.YYYY` names.
pub open spec fn month_of(s: Seq<char>) -> int {
    10 * digit_value(s[3]) + digit_value(s[4])
}

/// The year that a `DD.MM.YYYY` names.
pub open spec fn year_of(s: Seq<char>) -> int {
    1000 * digit_value(s[6]) + 100 * digit_value(s[7]) + 10 * digit_value(s[8]) + digit_value(
        s[9],
    )
}

/// Leap years of the Gregorian calendar, extended backwards to year 0.
pub open spec fn is_leap_year(year: int) -> bool {
    year % 4 == 0 && (year % 100 != 0 || year % 400 == 0)
}

/// The number of days of a month, counted from 1 for January.
pub open spec fn days_in_month(year: int, month: int) -> int {
    if month == 2 {
        if is_leap_year(year) {
            29
        } else {
            28
        }
    } else if month == 4 || month == 6 || month == 9 || month == 11 {
        30
    } else {
        31
    }
}

/// Whether the calendar has this day.
pub open spec fn is_calendar_date(day: int, month: int, year: int) -> bool {
    1 <= month <= 12 && 1 <= day <= days_in_month(year, month)
}

/// A text of the form `DD.MM.YYYY` that names a day of the calendar.
pub open spec fn is_date_text(s: Seq<char>) -> bool {
    is_date_shape(s) && is_calendar_date(day_of(s), month_of(s), year_of(s))
}

/// Searches `text` for `DATE_PATTERN` with the regex crate: `Regex::new`,
/// then `Regex::find`. The pattern is anchored at both ends and `\d` stands
/// for one decimal digit of any script, so a match is trusted to mean ten
/// characters laid out as digits and dots, and every `DD.MM.YYYY` written
/// in ASCII digits is trusted to match.
#[verifier::external_body]
fn matches_pattern(pattern: &str, text: &str) -> (found: bool)
    requires
        pattern@ == DATE_PATTERN@,
    ensures
        found ==> has_date_layout(text@),
        is_date_shape(text@) ==> found,
{
    regex::Regex::new(pattern).unwrap().find(text).is_some()
}

/// Parses `text` with chrono's `NaiveDate::parse_from_str` under
/// `DATE_FORMAT`. Chrono reads white space, an optional sign on the year,
/// ASCII digits and the two dots, and rejects anything left over; so
/// success is trusted to mean the text holds no other character, and on a
/// `DD.MM.YYYY` in ASCII digits it is trusted to succeed exactly when the
/// calendar has that day.
#[verifier::external_body]
fn parses_as_date(text: &str, format: &str) -> (ok: bool)
    requires
        format@ == DATE_FORMAT@,
    ensures
        ok ==> forall|i: int| 0 <= i < text@.len() ==> is_date_char(#[trigger] text@[i]),
        is_date_shape(text@) ==> ok == is_date_text(text@),
{
    chrono::NaiveDate::parse_from_str(text, format).is_ok()
}

/// Today's date in the local time zone, written with chrono under
/// `DATE_FORMAT`: `Local::now`, `DateTime::date_naive`, `NaiveDate::format`.
/// Nothing is claimed of the text, which depends on the clock.
#[verifier::external_body]
pub(crate) fn today(format: &str) -> (text: String)
    requires
        format@ == DATE_FORMAT@,
{
    chrono::Local::now().date_naive().format(format).to_string()
}

/// Whether `date` is a `DD.MM.YYYY` that names a day of the calendar.
pub fn validate_date_str(date: &str) -> (r: bool)
    ensures
        r == is_date_text(date@),
{
    matches_pattern(DATE_PATTERN, date) && parses_as_date(date, DATE_FORMAT)
}

} // verus!
