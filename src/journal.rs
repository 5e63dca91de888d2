//! Lines of the diagnostic log: `[YYYY-MM-DD HH:MM:SS]:message` followed by
//! a carriage return and a line feed, stamped with the local time.
use vstd::prelude::*;
use vstd::string::{StrSliceExecFns, StringExecFns};
use chrono::{Datelike, Timelike};
use crate::text::push_char;

verus! {

/// A local date and time of day, as the log stamps it.
pub struct Timestamp {
    pub year: i32,
    pub month: u32,
    pub day: u32,
    pub hour: u32,
    pub minute: u32,
    pub second: u32,
}

impl Timestamp {
    /// The fields lie in the ranges of a calendar date and a time of day.
    pub open spec fn valid(&self) -> bool {
        &&& 1 <= self.month <= 12
        &&& 1 <= self.day <= 31
        &&& self.hour <= 23
        &&& self.minute <= 59
        &&& self.second <= 59
    }
}

/// The character of a decimal digit.
pub open spec fn digit(d: nat) -> char {
    ((d + 48) as u32) as char
}

/// The decimal digits of `n`, without leading zeros.
pub open spec fn decimal(n: nat) -> Seq<char>
    decreases n,
{
    if n < 10 {
        seq![digit(n)]
    } else {
        decimal(n / 10).push(digit(n % 10))
    }
}

/// The decimal digits of `n`, with zeros in front up to `width` characters.
pub open spec fn padded(n: nat, width: nat) -> Seq<char> {
    let d = decimal(n);
    if d.len() < width {
        Seq::new((width - d.len()) as nat, |i: int| '0') + d
    } else {
        d
    }
}

/// A year as the stamp writes it: four digits from 0 to 9999, and outside
/// that range a sign before at least four digits.
pub open spec fn year_text(y: int) -> Seq<char> {
    if 0 <= y <= 9999 {
        padded(y as nat, 4)
    } else if y > 9999 {
        seq!['+'] + decimal(y as nat)
    } else {
        seq!['-'] + padded((-y) as nat, 4)
    }
}

/// The text of a stamp: `YYYY-MM-DD HH:MM:SS`.
pub open spec fn stamp_text(t: Timestamp) -> Seq<char> {
    year_text(t.year as int) + seq!['-'] + padded(t.month as nat, 2) + seq!['-'] + padded(
        t.day as nat,
        2,
    ) + seq![' '] + padded(t.hour as nat, 2) + seq![':'] + padded(t.minute as nat, 2) + seq![':']
        + padded(t.second as nat, 2)
}

/// One line of the log.
pub open spec fn log_line(t: Timestamp, message: Seq<char>) -> Seq<char> {
    seq!['['] + stamp_text(t) + seq![']', ':'] + message + seq!['\r', '\n']
}

/// Relies on chrono's `Local::now` and the `Datelike` and `Timelike`
/// accessors of the result, whose documented ranges are those of `valid`.
#[verifier::external_body]
fn local_now() -> (r: Timestamp)
    ensures
        r.valid(),
{
    let now = chrono::Local::now();
    Timestamp {
        year: now.year(),
        month: now.month(),
        day: now.day(),
        hour: now.hour(),
        minute: now.minute(),
        second: now.second(),
    }
}

/// Appends the decimal digits of `n`.
fn push_decimal(s: &mut String, n: u64)
    ensures
        final(s)@ == old(s)@ + decimal(n as nat),
    decreases n,
{
    if n >= 10 {
        push_decimal(s, n / 10);
    }
    let d: u8 = (n % 10) as u8;
    push_char(s, (48u8 + d) as char);
    assert(s@ =~= old(s)@ + decimal(n as nat));
}

/// Appends the decimal digits of `n`, with zeros in front up to `width`.
fn push_padded(s: &mut String, n: u64, width: usize)
    ensures
        final(s)@ == old(s)@ + padded(n as nat, width as nat),
{
    let mut digits = String::new();
    push_decimal(&mut digits, n);
    let count = digits.as_str().unicode_len();
    let ghost start = s@;
    if count < width {
        let mut k: usize = count;
        while k < width
            invariant
                count <= k <= width,
                s@ == start + Seq::new((k - count) as nat, |i: int| '0'),
            decreases width - k,
        {
            push_char(s, '0');
            k = k + 1;
            assert(s@ =~= start + Seq::new((k - count) as nat, |i: int| '0'));
        }
    }
    s.append(digits.as_str());
    assert(s@ =~= start + padded(n as nat, width as nat));
}

/// Appends the year as the stamp writes it.
fn push_year(s: &mut String, y: i32)
    ensures
        final(s)@ == old(s)@ + year_text(y as int),
{
    let ghost start = s@;
    if 0 <= y && y <= 9999 {
        push_padded(s, y as u64, 4);
    } else if y > 9999 {
        push_char(s, '+');
        push_decimal(s, y as u64);
        assert(s@ =~= start + year_text(y as int));
    } else {
        push_char(s, '-');
        let a: i64 = -(y as i64);
        push_padded(s, a as u64, 4);
        assert(s@ =~= start + year_text(y as int));
    }
}

/// Writes a stamp as `YYYY-MM-DD HH:MM:SS`.
pub fn format_timestamp(t: &Timestamp) -> (r: String)
    ensures
        r@ == stamp_text(*t),
{
    let mut s = String::new();
    push_year(&mut s, t.year);
    push_char(&mut s, '-');
    push_padded(&mut s, t.month as u64, 2);
    push_char(&mut s, '-');
    push_padded(&mut s, t.day as u64, 2);
    push_char(&mut s, ' ');
    push_padded(&mut s, t.hour as u64, 2);
    push_char(&mut s, ':');
    push_padded(&mut s, t.minute as u64, 2);
    push_char(&mut s, ':');
    push_padded(&mut s, t.second as u64, 2);
    assert(s@ =~= stamp_text(*t));
    s
}

/// The log line for `message` stamped with `t`.
pub fn format_log_line(t: &Timestamp, message: &str) -> (r: String)
    ensures
        r@ == log_line(*t, message@),
{
    let mut s = String::new();
    push_char(&mut s, '[');
    let stamp = format_timestamp(t);
    s.append(stamp.as_str());
    push_char(&mut s, ']');
    push_char(&mut s, ':');
    s.append(message);
    push_char(&mut s, '\r');
    push_char(&mut s, '\n');
    assert(s@ =~= log_line(*t, message@));
    s
}

/// The log line for `message`, stamped with the local time now.
pub fn log_line_now(message: &str) -> (r: String)
    ensures
        exists|t: Timestamp| t.valid() && r@ == log_line(t, message@),
{
    let t = local_now();
    format_log_line(&t, message)
}

} // verus!
