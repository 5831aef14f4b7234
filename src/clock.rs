//! The time a document was added, as the host shows it:
//! `YYYY-MM-DD HH:MM:SS` in local time.

use vstd::prelude::*;

use chrono::{Datelike, Timelike};

use crate::text::{decimal, decimal_digits, digit_char, digit_str};

verus! {

/// A local date and time of day.
#[derive(Debug, Clone, Copy, PartialEq)]
pub struct LocalTime {
    pub year: i32,
    pub month: u32,
    pub day: u32,
    pub hour: u32,
    pub minute: u32,
    pub second: u32,
}

impl LocalTime {
    pub open spec fn wf(&self) -> bool {
        &&& 1 <= self.month <= 12
        &&& 1 <= self.day <= 31
        &&& self.hour <= 23
        &&& self.minute <= 59
        &&& self.second <= 59
    }
}

/// Relies on chrono's `Local::now` and the `Datelike` / `Timelike`
/// accessors of its result, whose documentation gives the ranges: month 1
/// to 12, day 1 to 31, hour 0 to 23, minute and second 0 to 59.
#[verifier::external_body]
fn local_now() -> (r: LocalTime)
    ensures
        r.wf(),
{
    let now = chrono::Local::now();
    LocalTime {
        year: now.year(),
        month: now.month(),
        day: now.day(),
        hour: now.hour(),
        minute: now.minute(),
        second: now.second(),
    }
}

/// Two digits, with a leading zero below ten.
pub open spec fn two_digits(n: nat) -> Seq<char> {
    seq![digit_char(n / 10), digit_char(n % 10)]
}

/// At least four digits, with leading zeros below a thousand.
pub open spec fn four_digits(n: nat) -> Seq<char> {
    if n < 10000 {
        seq![
            digit_char(n / 1000),
            digit_char(n / 100 % 10),
            digit_char(n / 10 % 10),
            digit_char(n % 10),
        ]
    } else {
        decimal_digits(n)
    }
}

/// The year: four digits from 0 to 9999, with a sign outside that range.
pub open spec fn year_text(y: int) -> Seq<char> {
    if 0 <= y <= 9999 {
        four_digits(y as nat)
    } else if y > 9999 {
        seq!['+'] + decimal_digits(y as nat)
    } else {
        seq!['-'] + four_digits((-y) as nat)
    }
}

/// `YYYY-MM-DD HH:MM:SS`.
pub open spec fn timestamp_of(t: LocalTime) -> Seq<char> {
    year_text(t.year as int) + seq!['-'] + two_digits(t.month as nat) + seq!['-'] + two_digits(
        t.day as nat,
    ) + seq![' '] + two_digits(t.hour as nat) + seq![':'] + two_digits(t.minute as nat) + seq![
        ':',
    ] + two_digits(t.second as nat)
}

fn push_two(s: &mut String, n: u32)
    requires
        n < 100,
    ensures
        final(s)@ == old(s)@ + two_digits(n as nat),
{
    s.append(digit_str((n / 10) as u64));
    s.append(digit_str((n % 10) as u64));
}

fn four(n: u64) -> (r: String)
    ensures
        r@ == four_digits(n as nat),
{
    if n < 10000 {
        let mut s = String::new();
        s.append(digit_str(n / 1000));
        s.append(digit_str(n / 100 % 10));
        s.append(digit_str(n / 10 % 10));
        s.append(digit_str(n % 10));
        s
    } else {
        decimal(n)
    }
}

/// The text of a local time, `YYYY-MM-DD HH:MM:SS`.
pub fn timestamp_text(t: &LocalTime) -> (r: String)
    requires
        t.wf(),
    ensures
        r@ == timestamp_of(*t),
{
    proof {
        reveal_strlit("+");
        reveal_strlit("-");
        reveal_strlit(" ");
        reveal_strlit(":");
    }
    let mut s = if 0 <= t.year && t.year <= 9999 {
        four(t.year as u64)
    } else if t.year > 9999 {
        String::from_str("+").concat(decimal(t.year as u64).as_str())
    } else {
        let magnitude: i64 = -(t.year as i64);
        String::from_str("-").concat(four(magnitude as u64).as_str())
    };
    s.append("-");
    push_two(&mut s, t.month);
    s.append("-");
    push_two(&mut s, t.day);
    s.append(" ");
    push_two(&mut s, t.hour);
    s.append(":");
    push_two(&mut s, t.minute);
    s.append(":");
    push_two(&mut s, t.second);
    s
}

/// The local time now, as text.
pub fn now_text() -> (r: String)
    ensures
        exists|t: LocalTime| t.wf() && r@ == timestamp_of(t),
{
    let t = local_now();
    timestamp_text(&t)
}

} // verus!
