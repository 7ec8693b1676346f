use vstd::prelude::*;

use crate::instant::days_from_civil;

verus! {

/// Value of an ASCII decimal digit.
pub open spec fn digit_val(c: char) -> int {
    c as int - '0' as int
}

pub open spec fn is_digit(c: char) -> bool {
    '0' <= c && c <= '9'
}

/// The number written by the two digits at `i` and `i + 1`.
pub open spec fn two_digits(s: Seq<char>, i: int) -> int {
    10 * digit_val(s[i]) + digit_val(s[i + 1])
}

/// `s` starts with `YYYY-MM-DD?HH:MM:SS`: digits where the fields stand
/// (the separators are checked by the parser and not needed here).
pub open spec fn date_time_shape(s: Seq<char>) -> bool {
    &&& s.len() >= 19
    &&& is_digit(s[0]) && is_digit(s[1]) && is_digit(s[2]) && is_digit(s[3])
    &&& is_digit(s[5]) && is_digit(s[6])
    &&& is_digit(s[8]) && is_digit(s[9])
    &&& is_digit(s[11]) && is_digit(s[12])
    &&& is_digit(s[14]) && is_digit(s[15])
    &&& is_digit(s[17]) && is_digit(s[18])
}

pub open spec fn text_year(s: Seq<char>) -> int {
    1000 * digit_val(s[0]) + 100 * digit_val(s[1]) + 10 * digit_val(s[2]) + digit_val(s[3])
}

pub open spec fn text_month(s: Seq<char>) -> int {
    two_digits(s, 5)
}

pub open spec fn text_day(s: Seq<char>) -> int {
    two_digits(s, 8)
}

pub open spec fn text_hour(s: Seq<char>) -> int {
    two_digits(s, 11)
}

pub open spec fn text_minute(s: Seq<char>) -> int {
    two_digits(s, 14)
}

/// The seconds field as written; 60 marks a leap second.
pub open spec fn text_second(s: Seq<char>) -> int {
    two_digits(s, 17)
}

/// The wall-clock time of `s` in whole seconds since the epoch, as if it were
/// UTC; a leap second counts as the second before it.
pub open spec fn local_seconds(s: Seq<char>) -> int {
    let sec = if text_second(s) == 60 { 59 } else { text_second(s) };
    days_from_civil(text_year(s), text_month(s), text_day(s)) * 86400 + text_hour(s) * 3600
        + text_minute(s) * 60 + sec
}

/// `s` ends in `Z` or `z`: an offset of zero.
pub open spec fn ends_in_zulu(s: Seq<char>) -> bool {
    s.len() > 0 && (s[s.len() - 1] == 'Z' || s[s.len() - 1] == 'z')
}

/// Where the offset begins: one character from the end for `Z`, else six
/// (a sign and `HH:MM`).
pub open spec fn offset_start(s: Seq<char>) -> int {
    if ends_in_zulu(s) {
        s.len() - 1
    } else {
        s.len() - 6
    }
}

/// `s` ends in an offset after its first 19 characters: `Z`, `z`, or a sign
/// (`+`, `-` or U+2212) followed by `HH:MM` with hours up to 23 and minutes
/// up to 59.
pub open spec fn offset_shape(s: Seq<char>) -> bool {
    let n = s.len() as int;
    &&& n >= 20
    &&& ends_in_zulu(s) || {
        &&& n >= 25
        &&& (s[n - 6] == '+' || s[n - 6] == '-' || s[n - 6] == '\u{2212}')
        &&& is_digit(s[n - 5]) && is_digit(s[n - 4])
        &&& s[n - 3] == ':'
        &&& '0' <= s[n - 2] && s[n - 2] <= '5' && is_digit(s[n - 1])
        &&& two_digits(s, n - 5) <= 23
    }
}

/// Between the seconds and the offset stands nothing, or a `.` and at least
/// one digit.
pub open spec fn fraction_shape(s: Seq<char>) -> bool {
    ||| offset_start(s) == 19
    ||| {
        &&& offset_start(s) >= 21
        &&& s[19] == '.'
        &&& forall|i: int| 20 <= i < offset_start(s) ==> #[trigger] is_digit(s[i])
    }
}

/// The number that a run of decimal digits writes.
pub open spec fn digits_value(d: Seq<char>) -> int
    decreases d.len(),
{
    if d.len() == 0 {
        0
    } else {
        digits_value(d.drop_last()) * 10 + digit_val(d.last())
    }
}

pub open spec fn pow10(k: nat) -> int
    decreases k,
{
    if k == 0 {
        1
    } else {
        10 * pow10((k - 1) as nat)
    }
}

/// The nanoseconds that the fraction of `s` writes: its first nine digits,
/// scaled; any further digits are ignored.
pub open spec fn fraction_nanos(s: Seq<char>) -> int {
    if offset_start(s) <= 20 {
        0
    } else {
        let e = if offset_start(s) < 29 { offset_start(s) } else { 29 };
        digits_value(s.subrange(20, e)) * pow10((9 - (e - 20)) as nat)
    }
}

/// The nanoseconds past the whole second that `s` denotes; a leap second
/// adds one billion.
pub open spec fn text_nanos(s: Seq<char>) -> int {
    fraction_nanos(s) + if text_second(s) == 60 { 1_000_000_000int } else { 0int }
}

pub open spec fn is_leap_year(y: int) -> bool {
    y % 4 == 0 && (y % 100 != 0 || y % 400 == 0)
}

pub open spec fn days_in_month(y: int, m: int) -> int {
    if m == 2 {
        if is_leap_year(y) { 29 } else { 28 }
    } else if m == 4 || m == 6 || m == 9 || m == 11 {
        30
    } else {
        31
    }
}

/// `s` is an RFC 3339 date-time: `YYYY-MM-DD`, then `T`, `t` or a space, then
/// `HH:MM:SS` (a second of 60 marks a leap second), an optional fraction, and
/// an explicit offset; the date exists in the proleptic Gregorian calendar.
pub open spec fn rfc3339_valid(s: Seq<char>) -> bool {
    &&& date_time_shape(s)
    &&& s[4] == '-' && s[7] == '-'
    &&& (s[10] == 'T' || s[10] == 't' || s[10] == ' ')
    &&& s[13] == ':' && s[16] == ':'
    &&& 1 <= text_month(s) <= 12
    &&& 1 <= text_day(s) <= days_in_month(text_year(s), text_month(s))
    &&& text_hour(s) <= 23
    &&& text_minute(s) <= 59
    &&& text_second(s) <= 60
    &&& offset_shape(s)
    &&& fraction_shape(s)
}

/// The offset east of UTC, in seconds, written at the end of `s`: `Z` for
/// zero, else a sign followed by `HH:MM`.
pub open spec fn text_offset(s: Seq<char>) -> int {
    let n = s.len() as int;
    if ends_in_zulu(s) {
        0
    } else {
        let magnitude = two_digits(s, n - 5) * 3600 + two_digits(s, n - 2) * 60;
        if s[n - 6] == '+' {
            magnitude
        } else {
            -magnitude
        }
    }
}

/// The absolute second that `s` denotes, worked out by hand: the wall-clock
/// time less the written offset.
pub open spec fn manual_utc_seconds(s: Seq<char>) -> int {
    local_seconds(s) - text_offset(s)
}

} // verus!
