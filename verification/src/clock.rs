//! Time stamps as text, for entries that have no title.

use vstd::prelude::*;
use crate::text::{all_digits, digit_value, is_digit};

verus! {

/// First second of the year 0 in universal time: the earliest time stamp
/// that is shown.
pub const CLOCK_MIN: i64 = -62_167_219_200;

/// Last second of the year 9999 in universal time: the latest time stamp
/// that is shown.
pub const CLOCK_MAX: i64 = 253_402_300_799;

/// A whole number in decimal: a minus sign or none, then one or more
/// digits.
pub open spec fn numeral_spec(s: Seq<char>) -> bool {
    let digits = if s.len() > 0 && s[0] == '-' {
        s.subrange(1, s.len() as int)
    } else {
        s
    };
    digits.len() > 0 && all_digits(digits)
}

/// The two characters of `s` from `at` on are digits, and the number they
/// write lies between `low` and `high`.
pub open spec fn field_spec(s: Seq<char>, at: int, low: nat, high: nat) -> bool {
    &&& is_digit(s[at])
    &&& is_digit(s[at + 1])
    &&& low <= digit_value(s[at]) * 10 + digit_value(s[at + 1]) <= high
}

/// A date and a time of day to the minute, as in `2017-03-04 05:06`: the
/// year as a whole number, then the month, the day of the month, the hour
/// of the day out of 24 and the minute, two digits each, set off by a
/// hyphen, a hyphen, a blank and a colon.
pub open spec fn minute_spec(s: Seq<char>) -> bool {
    let tail = s.len() - 12;
    &&& s.len() >= 13
    &&& numeral_spec(s.subrange(0, tail))
    &&& s[tail] == '-'
    &&& field_spec(s, tail + 1, 1, 12)
    &&& s[tail + 3] == '-'
    &&& field_spec(s, tail + 4, 1, 31)
    &&& s[tail + 6] == ' '
    &&& field_spec(s, tail + 7, 0, 23)
    &&& s[tail + 9] == ':'
    &&& field_spec(s, tail + 10, 0, 59)
}

/// The text that stands for the second `sec`, as far as it is the same on
/// every machine: a date and minute for a second of the years 0 to 9999,
/// and the empty text for every other second.
pub open spec fn stamped_spec(sec: i64, text: Seq<char>) -> bool {
    if CLOCK_MIN <= sec <= CLOCK_MAX {
        minute_spec(text)
    } else {
        text.len() == 0
    }
}

/// `time::at` followed by `Tm::strftime` with the format `%Y-%m-%d %H:%M`:
/// the local calendar date and the time of day, to the minute, of the
/// second `sec`. Which date and minute depends on the time zone of the
/// machine, so only the form of the text is claimed: `strftime` writes the
/// year as a plain number and each of the other four fields of the time,
/// which lie in their calendar ranges, with two digits. `time::at` gives up
/// on a second whose year the C library cannot hold; the bounds keep far
/// away from that. `strftime` refuses a format it does not know and a time
/// whose month or day of the week is out of range; this format it knows,
/// and the time that `time::at` gives has neither, so a text always comes
/// back.
#[verifier::external_body]
fn local_minute(sec: i64) -> (text: String)
    requires
        CLOCK_MIN <= sec <= CLOCK_MAX,
    ensures
        minute_spec(text@),
{
    time::at(time::Timespec { sec, nsec: 0 }).strftime("%Y-%m-%d %H:%M").unwrap().to_string()
}

/// The text that stands in for a missing title: the local date and minute
/// of the second `sec`, as in `2017-03-04 05:06`. A second outside the years
/// 0 to 9999 has no such text, and the result is empty.
pub fn stamp(sec: i64) -> (text: String)
    ensures
        stamped_spec(sec, text@),
{
    if CLOCK_MIN <= sec && sec <= CLOCK_MAX {
        local_minute(sec)
    } else {
        String::new()
    }
}

} // verus!
