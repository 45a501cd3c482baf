//! Wall-clock timestamps and their rendering.

use vstd::prelude::*;
use vstd::string::StringExecFns;

use chrono::{Datelike, Timelike};

verus! {

/// A local wall-clock time, split into plain calendar fields.
#[derive(Clone, Copy, PartialEq, Eq, Structural, Debug)]
pub struct Timestamp {
    pub year: u16,
    pub month: u8,
    pub day: u8,
    pub hour: u8,
    pub minute: u8,
    pub second: u8,
}

impl Timestamp {
    /// The fields stay within the ranges a calendar clock can report, and the
    /// year stays renderable with four digits.
    pub open spec fn wf(self) -> bool {
        &&& self.year <= 9999
        &&& 1 <= self.month <= 12
        &&& 1 <= self.day <= 31
        &&& self.hour <= 23
        &&& self.minute <= 59
        &&& self.second <= 59
    }

    /// Captures the current local wall-clock time.
    ///
    /// A clock year outside the four-digit range is clamped to it.
    pub fn now() -> (t: Timestamp)
        ensures
            t.wf(),
    {
        let (year, month, day, hour, minute, second) = local_clock_parts();
        let year: u16 = if year < 0 {
            0
        } else if year > 9999 {
            9999
        } else {
            year as u16
        };
        Timestamp {
            year,
            month: month as u8,
            day: day as u8,
            hour: hour as u8,
            minute: minute as u8,
            second: second as u8,
        }
    }
}

/// Relies on chrono's `Local::now` and its `Datelike`/`Timelike` accessors
/// (`year`, `month`, `day`, `hour`, `minute`, `second`): chrono documents the
/// month as 1 to 12, the day as 1 to 31, the hour as 0 to 23, and the minute
/// and second as 0 to 59.
#[verifier::external_body]
fn local_clock_parts() -> (r: (i32, u32, u32, u32, u32, u32))
    ensures
        1 <= r.1 <= 12,
        1 <= r.2 <= 31,
        r.3 <= 23,
        r.4 <= 59,
        r.5 <= 59,
{
    let now = chrono::Local::now();
    (now.year(), now.month(), now.day(), now.hour(), now.minute(), now.second())
}

/// The decimal digit character for `d`.
pub open spec fn dec_digit(d: int) -> char {
    if d == 0 {
        '0'
    } else if d == 1 {
        '1'
    } else if d == 2 {
        '2'
    } else if d == 3 {
        '3'
    } else if d == 4 {
        '4'
    } else if d == 5 {
        '5'
    } else if d == 6 {
        '6'
    } else if d == 7 {
        '7'
    } else if d == 8 {
        '8'
    } else {
        '9'
    }
}

/// `n` rendered as two decimal digits, zero-padded.
pub open spec fn two_digits(n: int) -> Seq<char> {
    seq![dec_digit(n / 10), dec_digit(n % 10)]
}

/// `n` rendered as four decimal digits, zero-padded.
pub open spec fn four_digits(n: int) -> Seq<char> {
    seq![dec_digit(n / 1000), dec_digit((n / 100) % 10), dec_digit((n / 10) % 10), dec_digit(n % 10)]
}

/// A timestamp rendered as `YYYY-MM-DD HH:MM:SS`.
pub open spec fn spec_timestamp(t: Timestamp) -> Seq<char> {
    four_digits(t.year as int) + seq!['-'] + two_digits(t.month as int) + seq!['-'] + two_digits(
        t.day as int,
    ) + seq![' '] + two_digits(t.hour as int) + seq![':'] + two_digits(t.minute as int) + seq![':']
        + two_digits(t.second as int)
}

/// The one-character string holding the decimal digit for `d`.
fn digit_str(d: u8) -> (s: &'static str)
    requires
        d < 10,
    ensures
        s@ =~= seq![dec_digit(d as int)],
{
    proof {
        reveal_strlit("0");
        reveal_strlit("1");
        reveal_strlit("2");
        reveal_strlit("3");
        reveal_strlit("4");
        reveal_strlit("5");
        reveal_strlit("6");
        reveal_strlit("7");
        reveal_strlit("8");
        reveal_strlit("9");
    }
    match d {
        0 => "0",
        1 => "1",
        2 => "2",
        3 => "3",
        4 => "4",
        5 => "5",
        6 => "6",
        7 => "7",
        8 => "8",
        _ => "9",
    }
}

/// Appends `n` to `out` as two zero-padded decimal digits.
fn push_two_digits(out: &mut String, n: u8)
    requires
        n < 100,
    ensures
        final(out)@ == old(out)@ + two_digits(n as int),
{
    out.append(digit_str(n / 10));
    out.append(digit_str(n % 10));
    proof {
        assert(out@ =~= old(out)@ + two_digits(n as int));
    }
}

/// Appends `n` to `out` as four zero-padded decimal digits.
fn push_four_digits(out: &mut String, n: u16)
    requires
        n < 10000,
    ensures
        final(out)@ == old(out)@ + four_digits(n as int),
{
    out.append(digit_str((n / 1000) as u8));
    out.append(digit_str(((n / 100) % 10) as u8));
    out.append(digit_str(((n / 10) % 10) as u8));
    out.append(digit_str((n % 10) as u8));
    proof {
        assert(out@ =~= old(out)@ + four_digits(n as int));
    }
}

/// Renders a timestamp as `YYYY-MM-DD HH:MM:SS`.
pub fn render_timestamp(t: &Timestamp) -> (s: String)
    requires
        t.wf(),
    ensures
        s@ == spec_timestamp(*t),
{
    let mut out = String::new();
    push_four_digits(&mut out, t.year);
    out.append("-");
    push_two_digits(&mut out, t.month);
    out.append("-");
    push_two_digits(&mut out, t.day);
    out.append(" ");
    push_two_digits(&mut out, t.hour);
    out.append(":");
    push_two_digits(&mut out, t.minute);
    out.append(":");
    push_two_digits(&mut out, t.second);
    proof {
        reveal_strlit("-");
        reveal_strlit(" ");
        reveal_strlit(":");
        assert(out@ =~= spec_timestamp(*t));
    }
    out
}

} // verus!
