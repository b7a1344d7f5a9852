//! Calendar timestamps and the two fixed textual formats the portal uses.
//!
//! Timestamps arrive as `"YYYY-MM-DD HH:MM"` (minute precision) or
//! `"YYYY-MM-DD HH:MM:SS"` (second precision).  Both parsers are verified
//! down to the calendar rules: month ranges, month lengths and leap years.

use vstd::prelude::*;
use vstd::string::StrSliceExecFns;

verus! {

/// A calendar timestamp held as plain numbers.  With minute precision the
/// seconds field is zero.
#[derive(Clone, Copy, Debug, PartialEq, Eq, Structural)]
pub struct DateTime {
    pub year: u32,
    pub month: u32,
    pub day: u32,
    pub hour: u32,
    pub minute: u32,
    pub second: u32,
}

/// `c` is a decimal digit.
pub open spec fn is_digit(c: char) -> bool {
    48 <= c as int <= 57
}

/// The value of the decimal digit `c`.
pub open spec fn digit_val(c: char) -> int {
    c as int - 48
}

/// Leap years by the Gregorian rule.
pub open spec fn is_leap_year(y: int) -> bool {
    y % 4 == 0 && (y % 100 != 0 || y % 400 == 0)
}

/// How many days month `m` of year `y` has.
pub open spec fn days_in_month(y: int, m: int) -> int {
    if m == 2 {
        if is_leap_year(y) {
            29
        } else {
            28
        }
    } else if m == 4 || m == 6 || m == 9 || m == 11 {
        30
    } else {
        31
    }
}

/// The fields form a real calendar timestamp.
pub open spec fn valid_date_time(d: DateTime) -> bool {
    &&& 1 <= d.month <= 12
    &&& 1 <= d.day <= days_in_month(d.year as int, d.month as int)
    &&& d.hour <= 23
    &&& d.minute <= 59
    &&& d.second <= 59
}

/// The first sixteen characters spell `YYYY-MM-DD HH:MM`.
pub open spec fn minute_prefix_shape(s: Seq<char>) -> bool {
    &&& s.len() >= 16
    &&& is_digit(s[0]) && is_digit(s[1]) && is_digit(s[2]) && is_digit(s[3])
    &&& s[4] == '-'
    &&& is_digit(s[5]) && is_digit(s[6])
    &&& s[7] == '-'
    &&& is_digit(s[8]) && is_digit(s[9])
    &&& s[10] == ' '
    &&& is_digit(s[11]) && is_digit(s[12])
    &&& s[13] == ':'
    &&& is_digit(s[14]) && is_digit(s[15])
}

/// The fields spelled by a text of minute or second precision.
pub open spec fn dt_of(s: Seq<char>, with_seconds: bool) -> DateTime
    recommends
        minute_prefix_shape(s),
        with_seconds ==> s.len() >= 19,
{
    DateTime {
        year: (digit_val(s[0]) * 1000 + digit_val(s[1]) * 100 + digit_val(s[2]) * 10 + digit_val(
            s[3],
        )) as u32,
        month: (digit_val(s[5]) * 10 + digit_val(s[6])) as u32,
        day: (digit_val(s[8]) * 10 + digit_val(s[9])) as u32,
        hour: (digit_val(s[11]) * 10 + digit_val(s[12])) as u32,
        minute: (digit_val(s[14]) * 10 + digit_val(s[15])) as u32,
        second: if with_seconds {
            (digit_val(s[17]) * 10 + digit_val(s[18])) as u32
        } else {
            0
        },
    }
}

/// What parsing `s` with the minute-precision format yields.
pub open spec fn spec_date_time(s: Seq<char>) -> Option<DateTime> {
    if s.len() == 16 && minute_prefix_shape(s) && valid_date_time(dt_of(s, false)) {
        Some(dt_of(s, false))
    } else {
        None
    }
}

/// What parsing `s` with the second-precision format yields.
pub open spec fn spec_date_time1(s: Seq<char>) -> Option<DateTime> {
    if s.len() == 19 && minute_prefix_shape(s) && s[16] == ':' && is_digit(s[17]) && is_digit(
        s[18],
    ) && valid_date_time(dt_of(s, true)) {
        Some(dt_of(s, true))
    } else {
        None
    }
}

/// The value of the digit at position `i`, or `None` if no digit stands
/// there.
fn digit_at(s: &str, i: usize) -> (r: Option<u32>)
    requires
        i < s@.len(),
        s@.len() <= usize::MAX,
    ensures
        match r {
            Some(v) => is_digit(s@[i as int]) && v == digit_val(s@[i as int]) && v <= 9,
            None => !is_digit(s@[i as int]),
        },
{
    let c = s.get_char(i);
    let u = c as u32;
    if 48 <= u && u <= 57 {
        Some(u - 48)
    } else {
        None
    }
}

/// Whether the character at position `i` is exactly `c`.
fn char_at_is(s: &str, i: usize, c: char) -> (r: bool)
    requires
        i < s@.len(),
        s@.len() <= usize::MAX,
    ensures
        r == (s@[i as int] == c),
{
    s.get_char(i) == c
}

/// The two-digit number at positions `i` and `i + 1`.
fn read2(s: &str, i: usize) -> (r: Option<u32>)
    requires
        i + 1 < s@.len(),
        s@.len() <= usize::MAX,
    ensures
        match r {
            Some(v) => is_digit(s@[i as int]) && is_digit(s@[i + 1]) && v == digit_val(
                s@[i as int],
            ) * 10 + digit_val(s@[i + 1]),
            None => !(is_digit(s@[i as int]) && is_digit(s@[i + 1])),
        },
{
    match (digit_at(s, i), digit_at(s, i + 1)) {
        (Some(a), Some(b)) => Some(a * 10 + b),
        _ => None,
    }
}

/// The four-digit number at positions `i` through `i + 3`.
fn read4(s: &str, i: usize) -> (r: Option<u32>)
    requires
        i + 3 < s@.len(),
        s@.len() <= usize::MAX,
    ensures
        match r {
            Some(v) => is_digit(s@[i as int]) && is_digit(s@[i + 1]) && is_digit(s@[i + 2])
                && is_digit(s@[i + 3]) && v == digit_val(s@[i as int]) * 1000 + digit_val(
                s@[i + 1],
            ) * 100 + digit_val(s@[i + 2]) * 10 + digit_val(s@[i + 3]),
            None => !(is_digit(s@[i as int]) && is_digit(s@[i + 1]) && is_digit(s@[i + 2])
                && is_digit(s@[i + 3])),
        },
{
    match (digit_at(s, i), digit_at(s, i + 1), digit_at(s, i + 2), digit_at(s, i + 3)) {
        (Some(a), Some(b), Some(c), Some(d)) => Some(a * 1000 + b * 100 + c * 10 + d),
        _ => None,
    }
}

/// How many days month `m` of year `y` has.
fn days_in_month_exec(y: u32, m: u32) -> (r: u32)
    ensures
        r == days_in_month(y as int, m as int),
{
    if m == 2 {
        if y % 4 == 0 && (y % 100 != 0 || y % 400 == 0) {
            29
        } else {
            28
        }
    } else if m == 4 || m == 6 || m == 9 || m == 11 {
        30
    } else {
        31
    }
}

/// The fields are a real calendar timestamp.
fn check_valid(d: &DateTime) -> (r: bool)
    ensures
        r == valid_date_time(*d),
{
    1 <= d.month && d.month <= 12 && 1 <= d.day && d.day <= days_in_month_exec(d.year, d.month)
        && d.hour <= 23 && d.minute <= 59 && d.second <= 59
}

/// The shared `YYYY-MM-DD HH:MM` prefix, or `None` where the text does not
/// spell it or the fields are no real timestamp with the given seconds.
fn parse_prefix(s: &str, second: u32) -> (r: Option<DateTime>)
    requires
        s@.len() >= 16,
        s@.len() <= usize::MAX,
        second <= 59,
    ensures
        match r {
            Some(d) => minute_prefix_shape(s@) && d == DateTime { second, ..dt_of(s@, false) }
                && valid_date_time(d),
            None => !(minute_prefix_shape(s@) && valid_date_time(
                DateTime { second, ..dt_of(s@, false) },
            )),
        },
{
    let year = match read4(s, 0) {
        Some(v) => v,
        None => {
            return None;
        },
    };
    if !char_at_is(s, 4, '-') {
        return None;
    }
    let month = match read2(s, 5) {
        Some(v) => v,
        None => {
            return None;
        },
    };
    if !char_at_is(s, 7, '-') {
        return None;
    }
    let day = match read2(s, 8) {
        Some(v) => v,
        None => {
            return None;
        },
    };
    if !char_at_is(s, 10, ' ') {
        return None;
    }
    let hour = match read2(s, 11) {
        Some(v) => v,
        None => {
            return None;
        },
    };
    if !char_at_is(s, 13, ':') {
        return None;
    }
    let minute = match read2(s, 14) {
        Some(v) => v,
        None => {
            return None;
        },
    };
    let d = DateTime { year, month, day, hour, minute, second };
    if check_valid(&d) {
        Some(d)
    } else {
        None
    }
}

/// Parse a timestamp of the minute-precision format `YYYY-MM-DD HH:MM`.
pub fn date_time(s: &str) -> (r: Option<DateTime>)
    ensures
        r == spec_date_time(s@),
{
    if s.unicode_len() != 16 {
        return None;
    }
    parse_prefix(s, 0)
}

/// Parse a timestamp of the second-precision format `YYYY-MM-DD HH:MM:SS`.
pub fn date_time1(s: &str) -> (r: Option<DateTime>)
    ensures
        r == spec_date_time1(s@),
{
    if s.unicode_len() != 19 {
        return None;
    }
    if !char_at_is(s, 16, ':') {
        return None;
    }
    let second = match read2(s, 17) {
        Some(v) => v,
        None => {
            return None;
        },
    };
    if second > 59 {
        return None;
    }
    parse_prefix(s, second)
}

/// What the optional minute-precision transform yields: a missing or empty
/// field is absent, anything else must parse.
pub open spec fn spec_option_date_time(s: Option<Seq<char>>) -> Result<Option<DateTime>, ()> {
    match s {
        None => Ok(None),
        Some(t) => if t.len() == 0 {
            Ok(None)
        } else {
            match spec_date_time(t) {
                Some(d) => Ok(Some(d)),
                None => Err(()),
            }
        },
    }
}

/// What the optional second-precision transform yields.
pub open spec fn spec_option_date_time1(s: Option<Seq<char>>) -> Result<Option<DateTime>, ()> {
    match s {
        None => Ok(None),
        Some(t) => if t.len() == 0 {
            Ok(None)
        } else {
            match spec_date_time1(t) {
                Some(d) => Ok(Some(d)),
                None => Err(()),
            }
        },
    }
}

/// The optional variant of [`date_time`]: a missing or empty field maps to
/// absent, anything else parses or fails.
pub fn option_date_time(s: Option<&str>) -> (r: Result<Option<DateTime>, ()>)
    ensures
        r == spec_option_date_time(match s {
            Some(t) => Some(t@),
            None => None,
        }),
{
    match s {
        None => Ok(None),
        Some(t) => {
            if t.unicode_len() == 0 {
                Ok(None)
            } else {
                match date_time(t) {
                    Some(d) => Ok(Some(d)),
                    None => Err(()),
                }
            }
        },
    }
}

/// The optional variant of [`date_time1`]: a missing or empty field maps to
/// absent, anything else parses or fails.
pub fn option_date_time1(s: Option<&str>) -> (r: Result<Option<DateTime>, ()>)
    ensures
        r == spec_option_date_time1(match s {
            Some(t) => Some(t@),
            None => None,
        }),
{
    match s {
        None => Ok(None),
        Some(t) => {
            if t.unicode_len() == 0 {
                Ok(None)
            } else {
                match date_time1(t) {
                    Some(d) => Ok(Some(d)),
                    None => Err(()),
                }
            }
        },
    }
}

} // verus!
