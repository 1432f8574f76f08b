//! Rendering numbers, sizes and timestamps as text.

use vstd::prelude::*;
use chrono::{DateTime, Datelike, Timelike, Utc};
use crate::entry::Timestamp;

verus! {

broadcast use vstd::string::group_string_axioms;

pub open spec fn digit_char(d: int) -> char {
    if d == 0 { '0' }
    else if d == 1 { '1' }
    else if d == 2 { '2' }
    else if d == 3 { '3' }
    else if d == 4 { '4' }
    else if d == 5 { '5' }
    else if d == 6 { '6' }
    else if d == 7 { '7' }
    else if d == 8 { '8' }
    else { '9' }
}

/// The decimal digits of `n`, without leading zeros.
pub open spec fn decimal_text(n: nat) -> Seq<char>
    decreases n,
{
    if n < 10 {
        seq![digit_char(n as int)]
    } else {
        decimal_text(n / 10).push(digit_char((n % 10) as int))
    }
}

fn digit_str(d: u64) -> (r: &'static str)
    requires
        d < 10,
    ensures
        r@ == seq![digit_char(d as int)],
{
    proof {
        reveal_strlit("0");
        reveal_strlit("1");
        reveal_strlit("2");
        reveal_strlit("3");
        reveal_strlit("4");
        reveal_strlit("5");
        reveal_strlit("6");
        reveal_strlit("7");
        reveal_strlit("8");
        reveal_strlit("9");
    }
    if d == 0 { "0" }
    else if d == 1 { "1" }
    else if d == 2 { "2" }
    else if d == 3 { "3" }
    else if d == 4 { "4" }
    else if d == 5 { "5" }
    else if d == 6 { "6" }
    else if d == 7 { "7" }
    else if d == 8 { "8" }
    else { "9" }
}

/// `n` in decimal.
pub fn decimal(n: u64) -> (r: String)
    ensures
        r@ == decimal_text(n as nat),
    decreases n,
{
    if n < 10 {
        String::from_str(digit_str(n))
    } else {
        let mut s = decimal(n / 10);
        s.append(digit_str(n % 10));
        s
    }
}

/// A byte count in tenths of a (decimal) kilobyte, rounded to the nearest
/// tenth with halves rounded up.
pub open spec fn kb_tenths(bytes: nat) -> nat {
    (bytes + 50) / 100
}

/// A byte count in kilobytes with one decimal place, as in `12.3`.
pub open spec fn kb_text(bytes: nat) -> Seq<char> {
    decimal_text(kb_tenths(bytes) / 10) + seq!['.'] + seq![digit_char((kb_tenths(bytes) % 10) as int)]
}

/// `bytes` in kilobytes of 1000 bytes, with one decimal place.
pub fn format_kb(bytes: u64) -> (r: String)
    ensures
        r@ == kb_text(bytes as nat),
{
    let tenths: u64 = bytes / 100 + if bytes % 100 >= 50 { 1u64 } else { 0u64 };
    assert(tenths == kb_tenths(bytes as nat));
    let mut s = decimal(tenths / 10);
    proof { reveal_strlit("."); }
    s.append(".");
    s.append(digit_str(tenths % 10));
    s
}

/// Two digits, with a leading zero below ten.
pub open spec fn two_digits(n: nat) -> Seq<char> {
    seq![digit_char(((n / 10) % 10) as int), digit_char((n % 10) as int)]
}

/// At least four digits, padded with leading zeros.
pub open spec fn four_digits(n: nat) -> Seq<char> {
    if n < 10 {
        seq!['0', '0', '0'] + decimal_text(n)
    } else if n < 100 {
        seq!['0', '0'] + decimal_text(n)
    } else if n < 1000 {
        seq!['0'] + decimal_text(n)
    } else {
        decimal_text(n)
    }
}

/// A year in four digits; outside `0..=9999` it carries its sign and at
/// least four digits.
pub open spec fn year_text(y: int) -> Seq<char> {
    if 0 <= y <= 9999 {
        four_digits(y as nat)
    } else if y > 9999 {
        seq!['+'] + four_digits(y as nat)
    } else {
        seq!['-'] + four_digits((-y) as nat)
    }
}

/// A calendar date and time of day in UTC.
#[derive(Clone, Copy, Debug, PartialEq, Eq, Structural)]
pub struct UtcTime {
    pub year: i32,
    pub month: u32,
    pub day: u32,
    pub hour: u32,
    pub minute: u32,
    pub second: u32,
}

/// `MM/DD/YYYY HH:MM:SS`.
pub open spec fn utc_text(t: UtcTime) -> Seq<char> {
    two_digits(t.month as nat) + seq!['/'] + two_digits(t.day as nat) + seq!['/'] + year_text(
        t.year as int,
    ) + seq![' '] + two_digits(t.hour as nat) + seq![':'] + two_digits(t.minute as nat) + seq![
        ':',
    ] + two_digits(t.second as nat)
}

fn append_two_digits(s: &mut String, n: u32)
    ensures
        final(s)@ == old(s)@ + two_digits(n as nat),
{
    let n64 = n as u64;
    s.append(digit_str((n64 / 10) % 10));
    s.append(digit_str(n64 % 10));
    assert(final(s)@ =~= old(s)@ + two_digits(n as nat));
}

fn append_four_digits(s: &mut String, n: u64)
    ensures
        final(s)@ == old(s)@ + four_digits(n as nat),
{
    proof {
        reveal_strlit("000");
        reveal_strlit("00");
        reveal_strlit("0");
    }
    if n < 10 {
        s.append("000");
    } else if n < 100 {
        s.append("00");
    } else if n < 1000 {
        s.append("0");
    }
    let d = decimal(n);
    s.append(d.as_str());
    assert(final(s)@ =~= old(s)@ + four_digits(n as nat));
}

/// A UTC date and time as `MM/DD/YYYY HH:MM:SS`.
pub fn format_utc(t: &UtcTime) -> (r: String)
    ensures
        r@ == utc_text(*t),
{
    proof {
        reveal_strlit("/");
        reveal_strlit(" ");
        reveal_strlit(":");
        reveal_strlit("+");
        reveal_strlit("-");
    }
    let mut s = String::new();
    append_two_digits(&mut s, t.month);
    s.append("/");
    append_two_digits(&mut s, t.day);
    s.append("/");
    if 0 <= t.year && t.year <= 9999 {
        append_four_digits(&mut s, t.year as u64);
    } else if t.year > 9999 {
        s.append("+");
        append_four_digits(&mut s, t.year as u64);
    } else {
        s.append("-");
        let magnitude: u64 = (0 - (t.year as i64)) as u64;
        append_four_digits(&mut s, magnitude);
    }
    s.append(" ");
    append_two_digits(&mut s, t.hour);
    s.append(":");
    append_two_digits(&mut s, t.minute);
    s.append(":");
    append_two_digits(&mut s, t.second);
    assert(s@ =~= utc_text(*t));
    s
}

/// What chrono makes of a count of seconds since the Unix epoch, as
/// (year, month, day, hour, minute, second) in UTC; `None` out of its range.
pub uninterp spec fn utc_fields_of(secs: int) -> Option<(int, int, int, int, int, int)>;

pub open spec fn fields(t: UtcTime) -> (int, int, int, int, int, int) {
    (t.year as int, t.month as int, t.day as int, t.hour as int, t.minute as int, t.second as int)
}

/// Relies on chrono's `DateTime::<Utc>::from_timestamp` (`None` for seconds
/// out of its range) and on the `Datelike` / `Timelike` accessors, whose
/// month and day start at 1 and whose time of day, with no leap second at
/// zero nanoseconds, stays below 24:00:00.
#[verifier::external_body]
fn utc_from_timestamp(secs: i64) -> (r: Option<UtcTime>)
    ensures
        match r {
            None => utc_fields_of(secs as int) is None,
            Some(t) => {
                &&& utc_fields_of(secs as int) == Some(fields(t))
                &&& 1 <= t.month <= 12
                &&& 1 <= t.day <= 31
                &&& t.hour < 24
                &&& t.minute < 60
                &&& t.second < 60
            },
        },
{
    match DateTime::<Utc>::from_timestamp(secs, 0) {
        Some(t) => Some(UtcTime {
            year: t.year(),
            month: t.month(),
            day: t.day(),
            hour: t.hour(),
            minute: t.minute(),
            second: t.second(),
        }),
        None => None,
    }
}

/// The text for a count of seconds since the Unix epoch: its UTC date and
/// time as `MM/DD/YYYY HH:MM:SS`, or empty where chrono has no date for it.
pub open spec fn stamp_text(secs: int) -> Seq<char> {
    match utc_fields_of(secs) {
        Some(f) => utc_text(
            UtcTime {
                year: f.0 as i32,
                month: f.1 as u32,
                day: f.2 as u32,
                hour: f.3 as u32,
                minute: f.4 as u32,
                second: f.5 as u32,
            },
        ),
        None => Seq::empty(),
    }
}

/// The whole seconds of `t` (sub-second part dropped) rendered as
/// `MM/DD/YYYY HH:MM:SS` in UTC; empty where no date exists for them.
pub fn format_time(t: Timestamp) -> (r: String)
    ensures
        r@ == stamp_text(t.secs as int),
{
    match utc_from_timestamp(t.secs) {
        Some(u) => format_utc(&u),
        None => String::new(),
    }
}

} // verus!
