//! The time of day of a Unix timestamp, as the header shows it.

use vstd::prelude::*;

verus! {

/// The first second that has a calendar date.
pub const FIRST_CLOCK_SECOND: i64 = -8_334_601_228_800;

/// The last second that has a calendar date.
pub const LAST_CLOCK_SECOND: i64 = 8_210_266_876_799;

/// The character of a decimal digit.
pub open spec fn digit(n: int) -> char {
    if n == 0 {
        '0'
    } else if n == 1 {
        '1'
    } else if n == 2 {
        '2'
    } else if n == 3 {
        '3'
    } else if n == 4 {
        '4'
    } else if n == 5 {
        '5'
    } else if n == 6 {
        '6'
    } else if n == 7 {
        '7'
    } else if n == 8 {
        '8'
    } else {
        '9'
    }
}

/// A number below a hundred in two digits.
pub open spec fn two_digits(n: int) -> Seq<char> {
    seq![digit(n / 10), digit(n % 10)]
}

/// The time of day, in UTC, of the second `seconds` after the epoch, as
/// `HH:MM:SS`. Seconds before the epoch count back from midnight.
pub open spec fn clock_text(seconds: int) -> Seq<char> {
    let of_day = seconds % 86_400;
    two_digits(of_day / 3_600) + seq![':'] + two_digits((of_day / 60) % 60) + seq![':']
        + two_digits(of_day % 60)
}

/// Whether `seconds` falls on a calendar date.
pub open spec fn has_clock(seconds: i64) -> bool {
    FIRST_CLOCK_SECOND <= seconds <= LAST_CLOCK_SECOND
}

/// `chrono::DateTime::from_timestamp` and the `%H:%M:%S` format of what it
/// gives. The constructor refuses the seconds outside its calendar, which
/// runs from the first day of the year -262143 to the last of 262142;
/// within it the date is in UTC and the format writes hour, minute and
/// second of the day in two digits each.
#[verifier::external_body]
fn utc_clock(seconds: i64) -> (text: Option<String>)
    ensures
        match text {
            Some(t) => has_clock(seconds) && t@ == clock_text(seconds as int),
            None => !has_clock(seconds),
        },
{
    match chrono::DateTime::from_timestamp(seconds, 0) {
        Some(time) => Some(time.format("%H:%M:%S").to_string()),
        None => None,
    }
}

/// The time of day of a timestamp; `None` for a second without a date.
pub fn format_clock(seconds: i64) -> (text: Option<String>)
    ensures
        match text {
            Some(t) => has_clock(seconds) && t@ == clock_text(seconds as int),
            None => !has_clock(seconds),
        },
{
    utc_clock(seconds)
}

} // verus!
