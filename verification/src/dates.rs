//! Calendar dates parsed out of index-file names.
//!
//! A date is carried as its UTC midnight timestamp in seconds since the
//! Unix epoch.  File names embed dates as `YYYY-MM-DD`; the first such
//! pattern in the name is taken, and only a real calendar date (month and
//! day in range, leap years respected) yields a timestamp.

use crate::strutil::{digit_val, digit_value, is_digit, spec_is_digit};
use vstd::prelude::*;

verus! {

pub open spec fn is_leap_year(y: int) -> bool {
    y % 4 == 0 && (y % 100 != 0 || y % 400 == 0)
}

pub open spec fn days_in_month(y: int, m: int) -> int {
    if m == 2 {
        if is_leap_year(y) {
            29
        } else {
            28
        }
    } else if m == 4 || m == 6 || m == 9 || m == 11 {
        30
    } else {
        31
    }
}

/// A proleptic-Gregorian calendar date with a four-digit year.
pub open spec fn valid_ymd(y: int, m: int, d: int) -> bool {
    0 <= y <= 9999 && 1 <= m <= 12 && 1 <= d <= days_in_month(y, m)
}

/// Days from the Unix epoch to the given date (negative before 1970).
///
/// The year is shifted by 400 so every intermediate value stays
/// non-negative; one 400-year cycle has 146097 days, and 1970-01-01 lies
/// 865565 days after the shifted origin.
pub open spec fn epoch_days(y: int, m: int, d: int) -> int {
    let yp = if m <= 2 {
        y + 399
    } else {
        y + 400
    };
    let era = yp / 400;
    let yoe = yp % 400;
    let mp = if m > 2 {
        m - 3
    } else {
        m + 9
    };
    let doy = (153 * mp + 2) / 5 + d - 1;
    let doe = yoe * 365 + yoe / 4 + doy - yoe / 100;
    era * 146097 + doe - 865565
}

/// Seconds from the Unix epoch to midnight UTC of the given date.
pub open spec fn epoch_secs(y: int, m: int, d: int) -> int {
    epoch_days(y, m, d) * 86400
}

/// Number of days in a month, as an executable computation.
pub fn days_in_month_of(y: u32, m: u32) -> (r: u32)
    requires
        1 <= m <= 12,
    ensures
        r == days_in_month(y as int, m as int),
{
    if m == 2 {
        if y % 4 == 0 && (y % 100 != 0 || y % 400 == 0) {
            29
        } else {
            28
        }
    } else if m == 4 || m == 6 || m == 9 || m == 11 {
        30
    } else {
        31
    }
}

/// Whether year, month and day form a real calendar date.
pub fn check_ymd(y: u32, m: u32, d: u32) -> (r: bool)
    ensures
        r == valid_ymd(y as int, m as int, d as int),
{
    if y > 9999 || m < 1 || m > 12 || d < 1 {
        return false;
    }
    d <= days_in_month_of(y, m)
}

/// Midnight UTC of the given date, in seconds since the Unix epoch.
pub fn epoch_seconds_for(y: u32, m: u32, d: u32) -> (r: i64)
    requires
        valid_ymd(y as int, m as int, d as int),
    ensures
        r == epoch_secs(y as int, m as int, d as int),
{
    let yp: u64 = if m <= 2 {
        y as u64 + 399
    } else {
        y as u64 + 400
    };
    let era: u64 = yp / 400;
    let yoe: u64 = yp % 400;
    let mp: u64 = if m > 2 {
        m as u64 - 3
    } else {
        m as u64 + 9
    };
    let doy: u64 = (153 * mp + 2) / 5 + d as u64 - 1;
    let doe: u64 = yoe * 365 + yoe / 4 + doy - yoe / 100;
    let days: i64 = (era * 146097 + doe) as i64 - 865565;
    days * 86400
}

/// `YYYY-MM-DD`, all decimal digits, starts at position `i` of `s`.
pub open spec fn date_pattern_at(s: Seq<char>, i: int) -> bool {
    &&& 0 <= i
    &&& i + 10 <= s.len()
    &&& spec_is_digit(s[i])
    &&& spec_is_digit(s[i + 1])
    &&& spec_is_digit(s[i + 2])
    &&& spec_is_digit(s[i + 3])
    &&& s[i + 4] == '-'
    &&& spec_is_digit(s[i + 5])
    &&& spec_is_digit(s[i + 6])
    &&& s[i + 7] == '-'
    &&& spec_is_digit(s[i + 8])
    &&& spec_is_digit(s[i + 9])
}

/// Position of the first date pattern at or after `i`, if any.
pub open spec fn first_date_pos_from(s: Seq<char>, i: int) -> Option<int>
    decreases s.len() - i,
{
    if i < 0 || i + 10 > s.len() {
        None
    } else if date_pattern_at(s, i) {
        Some(i)
    } else {
        first_date_pos_from(s, i + 1)
    }
}

/// The year starting at position `i`.
pub open spec fn year_at(s: Seq<char>, i: int) -> int {
    1000 * digit_val(s[i]) + 100 * digit_val(s[i + 1]) + 10 * digit_val(s[i + 2]) + digit_val(
        s[i + 3],
    )
}

/// The month of a pattern starting at position `i`.
pub open spec fn month_at(s: Seq<char>, i: int) -> int {
    10 * digit_val(s[i + 5]) + digit_val(s[i + 6])
}

/// The day of a pattern starting at position `i`.
pub open spec fn day_at(s: Seq<char>, i: int) -> int {
    10 * digit_val(s[i + 8]) + digit_val(s[i + 9])
}

/// The timestamp a file name yields: the first `YYYY-MM-DD` pattern in it,
/// if that pattern is a real calendar date.
pub open spec fn extract_date_spec(s: Seq<char>) -> Option<int> {
    match first_date_pos_from(s, 0) {
        Option::None => Option::None,
        Option::Some(i) => {
            let y = year_at(s, i);
            let m = month_at(s, i);
            let d = day_at(s, i);
            if valid_ymd(y, m, d) {
                Option::Some(epoch_secs(y, m, d))
            } else {
                Option::None
            }
        },
    }
}

/// Whether a date pattern starts at position `i`, as an executable test.
fn date_pattern_at_exec(s: &str, i: usize) -> (r: bool)
    requires
        i + 10 <= s@.len(),
        s@.len() <= usize::MAX,
    ensures
        r == date_pattern_at(s@, i as int),
{
    is_digit(s.get_char(i)) && is_digit(s.get_char(i + 1)) && is_digit(s.get_char(i + 2))
        && is_digit(s.get_char(i + 3)) && s.get_char(i + 4) == '-' && is_digit(s.get_char(i + 5))
        && is_digit(s.get_char(i + 6)) && s.get_char(i + 7) == '-' && is_digit(s.get_char(i + 8))
        && is_digit(s.get_char(i + 9))
}

/// Extract date from filename (e.g., "2025-06-01_...") as the UTC midnight
/// timestamp of the first `YYYY-MM-DD` found, or nothing when no pattern
/// or no real calendar date is present.
pub fn extract_date_from_filename(filename: &str) -> (r: Option<i64>)
    ensures
        match r {
            Option::Some(t) => extract_date_spec(filename@) == Option::Some(t as int),
            Option::None => extract_date_spec(filename@) is None,
        },
{
    let n = filename.unicode_len();
    if n < 10 {
        return Option::None;
    }
    let mut i: usize = 0;
    while i <= n - 10
        invariant
            n == filename@.len(),
            10 <= n,
            i <= n - 10 + 1,
            first_date_pos_from(filename@, 0) == first_date_pos_from(filename@, i as int),
        decreases n - i,
    {
        if date_pattern_at_exec(filename, i) {
            let y = 1000 * digit_value(filename.get_char(i)) + 100 * digit_value(
                filename.get_char(i + 1),
            ) + 10 * digit_value(filename.get_char(i + 2)) + digit_value(filename.get_char(i + 3));
            let m = 10 * digit_value(filename.get_char(i + 5)) + digit_value(
                filename.get_char(i + 6),
            );
            let d = 10 * digit_value(filename.get_char(i + 8)) + digit_value(
                filename.get_char(i + 9),
            );
            if check_ymd(y, m, d) {
                return Option::Some(epoch_seconds_for(y, m, d));
            } else {
                return Option::None;
            }
        }
        i = i + 1;
    }
    Option::None
}

} // verus!
