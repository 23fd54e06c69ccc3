//! Normalizing the timestamps embedded in result pages: a fixed
//! `DD.MM.YY, HH:MM` pattern, read as Europe/Berlin wall-clock time and
//! converted to an absolute UTC instant.
//!
//! The pattern itself is this client's own grammar and is parsed here;
//! only the time-zone resolution (daylight-saving rules included) is
//! delegated to the `chrono` and `chrono-tz` crates behind a trusted
//! wrapper.

use vstd::prelude::*;
use crate::model::{days_in_month, ParseError};

verus! {

/// Whether a character is a decimal digit.
pub open spec fn is_digit(c: char) -> bool {
    '0' <= c && c <= '9'
}

/// The numeric value of a digit character.
pub open spec fn digit_val(c: char) -> int {
    c as int - '0' as int
}

/// The value of a two-digit group at position `i`.
pub open spec fn two_digits(s: Seq<char>, i: int) -> int {
    10 * digit_val(s[i]) + digit_val(s[i + 1])
}

/// The calendar year a two-digit year stands for: `00`–`68` lie in the
/// 2000s, `69`–`99` in the 1900s.
pub open spec fn expand_year(yy: int) -> int {
    if yy < 69 {
        2000 + yy
    } else {
        1900 + yy
    }
}

/// Whether a text matches the fixed timestamp pattern `DD.MM.YY, HH:MM`,
/// with every field two digits wide.
pub open spec fn stamp_shape(s: Seq<char>) -> bool {
    &&& s.len() == 15
    &&& is_digit(s[0]) && is_digit(s[1])
    &&& s[2] == '.'
    &&& is_digit(s[3]) && is_digit(s[4])
    &&& s[5] == '.'
    &&& is_digit(s[6]) && is_digit(s[7])
    &&& s[8] == ','
    &&& s[9] == ' '
    &&& is_digit(s[10]) && is_digit(s[11])
    &&& s[12] == ':'
    &&& is_digit(s[13]) && is_digit(s[14])
}

/// The wall-clock fields a timestamp text names, when the text matches
/// the pattern and names a day that exists in the calendar and a time of
/// day: `(year, month, day, hour, minute)`.
pub open spec fn stamp_of(s: Seq<char>) -> Option<(int, int, int, int, int)> {
    if stamp_shape(s) {
        let day = two_digits(s, 0);
        let month = two_digits(s, 3);
        let year = expand_year(two_digits(s, 6));
        let hour = two_digits(s, 10);
        let minute = two_digits(s, 13);
        if 1 <= month <= 12 && 1 <= day <= days_in_month(year, month) && hour <= 23 && minute
            <= 59 {
            Some((year, month, day, hour, minute))
        } else {
            None
        }
    } else {
        None
    }
}

/// The UTC instant (seconds since the Unix epoch) that the Europe/Berlin
/// wall-clock time `year-month-day hour:minute` resolves to under that
/// zone's offset and daylight-saving rules: `None` in a spring-forward
/// gap, the earlier instant in a fall-back overlap.
pub uninterp spec fn berlin_utc_of(
    year: int,
    month: int,
    day: int,
    hour: int,
    minute: int,
) -> Option<int>;

/// Relies on chrono's `NaiveDate`/`NaiveDateTime` and chrono-tz's
/// `Europe::Berlin`: resolves a Berlin wall-clock time to a UTC instant;
/// a nonexistent local time gives `None`, an ambiguous one the earlier
/// of its two instants (the first element of chrono's
/// `Ambiguous(earliest, latest)`). The result depends on the arguments
/// alone.
#[verifier::external_body]
fn berlin_to_utc(year: u16, month: u8, day: u8, hour: u8, minute: u8) -> (r: Option<i64>)
    ensures
        r is Some <==> berlin_utc_of(
            year as int,
            month as int,
            day as int,
            hour as int,
            minute as int,
        ) is Some,
        r matches Some(t) ==> t == berlin_utc_of(
            year as int,
            month as int,
            day as int,
            hour as int,
            minute as int,
        )->Some_0,
{
    let naive = chrono::NaiveDate::from_ymd_opt(year as i32, month as u32, day as u32)?
        .and_hms_opt(hour as u32, minute as u32, 0)?;
    match chrono::TimeZone::from_local_datetime(&chrono_tz::Europe::Berlin, &naive) {
        chrono::LocalResult::None => None,
        chrono::LocalResult::Single(t) => Some(t.timestamp()),
        chrono::LocalResult::Ambiguous(earliest, _latest) => Some(earliest.timestamp()),
    }
}

/// The absolute instant a timestamp text stands for: its wall-clock
/// fields resolved in the Europe/Berlin time zone; `None` when the text
/// is malformed or falls into a daylight-saving gap.
pub open spec fn instant_of(s: Seq<char>) -> Option<int> {
    match stamp_of(s) {
        Some(t) => berlin_utc_of(t.0, t.1, t.2, t.3, t.4),
        None => None,
    }
}

/// Read one two-digit group at position `i`; `None` unless both
/// characters are digits.
fn read_two_digits(s: &str, i: usize) -> (r: Option<u8>)
    requires
        i + 1 < s@.len(),
        s@.len() <= usize::MAX,
    ensures
        r is Some <==> is_digit(s@[i as int]) && is_digit(s@[i as int + 1]),
        r matches Some(v) ==> v == two_digits(s@, i as int) && v <= 99,
{
    let c0 = s.get_char(i);
    let c1 = s.get_char(i + 1);
    if '0' <= c0 && c0 <= '9' && '0' <= c1 && c1 <= '9' {
        let v0 = (c0 as u32) - ('0' as u32);
        let v1 = (c1 as u32) - ('0' as u32);
        Some((10 * v0 + v1) as u8)
    } else {
        None
    }
}

/// Whether the number of days in `month` of `year` is at least `day`;
/// the executable mirror of [`days_in_month`].
fn day_in_range(year: u16, month: u8, day: u8) -> (r: bool)
    requires
        1 <= month <= 12,
    ensures
        r == (1 <= day <= days_in_month(year as int, month as int)),
{
    let max: u8 = if month == 2 {
        if (year % 4 == 0 && year % 100 != 0) || year % 400 == 0 {
            29
        } else {
            28
        }
    } else if month == 4 || month == 6 || month == 9 || month == 11 {
        30
    } else {
        31
    };
    1 <= day && day <= max
}

/// Parse one timestamp cell into an absolute UTC instant (seconds since
/// the Unix epoch). The text must match `DD.MM.YY, HH:MM` exactly and
/// name a calendar day and a time of day, else the parse fails; a
/// wall-clock time in a daylight-saving gap fails as nonexistent, an
/// ambiguous one resolves to the earlier instant.
pub fn to_datetime(text: &str) -> (r: Result<i64, ParseError>)
    ensures
        r is Ok <==> instant_of(text@) is Some,
        r matches Ok(t) ==> t == instant_of(text@)->Some_0,
        stamp_of(text@) is None ==> r == Err::<i64, ParseError>(ParseError::InvalidTimestamp),
        stamp_of(text@) is Some && instant_of(text@) is None ==> r == Err::<i64, ParseError>(
            ParseError::NonexistentLocalTime,
        ),
{
    if text.unicode_len() != 15 {
        return Err(ParseError::InvalidTimestamp);
    }
    if !(text.get_char(2) == '.' && text.get_char(5) == '.' && text.get_char(8) == ','
        && text.get_char(9) == ' ' && text.get_char(12) == ':') {
        return Err(ParseError::InvalidTimestamp);
    }
    let day = match read_two_digits(text, 0) {
        Some(v) => v,
        None => {
            return Err(ParseError::InvalidTimestamp);
        },
    };
    let month = match read_two_digits(text, 3) {
        Some(v) => v,
        None => {
            return Err(ParseError::InvalidTimestamp);
        },
    };
    let yy = match read_two_digits(text, 6) {
        Some(v) => v,
        None => {
            return Err(ParseError::InvalidTimestamp);
        },
    };
    let hour = match read_two_digits(text, 10) {
        Some(v) => v,
        None => {
            return Err(ParseError::InvalidTimestamp);
        },
    };
    let minute = match read_two_digits(text, 13) {
        Some(v) => v,
        None => {
            return Err(ParseError::InvalidTimestamp);
        },
    };
    let year: u16 = if yy < 69 {
        2000 + yy as u16
    } else {
        1900 + yy as u16
    };
    if !(1 <= month && month <= 12) || !day_in_range(year, month, day) || hour > 23 || minute
        > 59 {
        return Err(ParseError::InvalidTimestamp);
    }
    match berlin_to_utc(year, month, day, hour, minute) {
        Some(t) => Ok(t),
        None => Err(ParseError::NonexistentLocalTime),
    }
}

} // verus!
