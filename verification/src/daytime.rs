//! The daytime service payload.
//!
//! A daytime handler answers each connection with one human-readable
//! timestamp line. The clock itself lives with the embedding caller; this
//! module takes the civil time as plain fields, checks it, and renders the
//! exact ASCII line `YYYY-MM-DD HH:MM:SS`.

use vstd::prelude::*;

verus! {

/// A civil date and time of day.
#[derive(Clone, Copy, PartialEq, Eq, Structural, Debug)]
pub struct Timestamp {
    pub year: u16,
    pub month: u8,
    pub day: u8,
    pub hour: u8,
    pub minute: u8,
    pub second: u8,
}

/// Whether a year is a leap year.
pub open spec fn spec_is_leap_year(y: int) -> bool {
    y % 4 == 0 && (y % 100 != 0 || y % 400 == 0)
}

/// How many days the month has, leap years included.
pub open spec fn spec_days_in_month(y: int, m: int) -> int {
    if m == 2 {
        if spec_is_leap_year(y) {
            29
        } else {
            28
        }
    } else if m == 4 || m == 6 || m == 9 || m == 11 {
        30
    } else {
        31
    }
}

/// Whether the fields form a real calendar date and time of day that the
/// renderer can print: four-digit year, valid month, a day the month has,
/// and a time of day.
pub open spec fn spec_timestamp_ok(
    year: u16,
    month: u8,
    day: u8,
    hour: u8,
    minute: u8,
    second: u8,
) -> bool {
    &&& year <= 9999
    &&& 1 <= month <= 12
    &&& 1 <= day <= spec_days_in_month(year as int, month as int)
    &&& hour < 24
    &&& minute < 60
    &&& second < 60
}

/// The ASCII digit for one decimal digit value.
pub open spec fn spec_digit(n: int) -> u8 {
    (48 + n) as u8
}

/// Two ASCII digits, zero padded.
pub open spec fn spec_two_digits(n: int) -> Seq<u8> {
    seq![spec_digit(n / 10), spec_digit(n % 10)]
}

/// Four ASCII digits, zero padded.
pub open spec fn spec_four_digits(n: int) -> Seq<u8> {
    seq![spec_digit(n / 1000), spec_digit((n / 100) % 10), spec_digit((n / 10) % 10), spec_digit(n % 10)]
}

/// The rendered line: `YYYY-MM-DD HH:MM:SS`, 19 ASCII bytes.
pub open spec fn spec_rendered(t: Timestamp) -> Seq<u8> {
    spec_four_digits(t.year as int) + seq![45u8] + spec_two_digits(t.month as int) + seq![45u8]
        + spec_two_digits(t.day as int) + seq![32u8] + spec_two_digits(t.hour as int) + seq![58u8]
        + spec_two_digits(t.minute as int) + seq![58u8] + spec_two_digits(t.second as int)
}

fn days_in_month(year: u16, month: u8) -> (d: u8)
    requires
        1 <= month <= 12,
    ensures
        d as int == spec_days_in_month(year as int, month as int),
{
    if month == 2 {
        if year % 4 == 0 && (year % 100 != 0 || year % 400 == 0) {
            29
        } else {
            28
        }
    } else if month == 4 || month == 6 || month == 9 || month == 11 {
        30
    } else {
        31
    }
}

impl Timestamp {
    /// Accept exactly the real calendar dates and times of day; reject
    /// everything else.
    pub fn new(year: u16, month: u8, day: u8, hour: u8, minute: u8, second: u8) -> (r: Option<
        Timestamp,
    >)
        ensures
            spec_timestamp_ok(year, month, day, hour, minute, second) ==> r == Some(
                Timestamp { year, month, day, hour, minute, second },
            ),
            !spec_timestamp_ok(year, month, day, hour, minute, second) ==> r is None,
    {
        if year <= 9999 && 1 <= month && month <= 12 && hour < 24 && minute < 60 && second < 60 {
            if 1 <= day && day <= days_in_month(year, month) {
                Some(Timestamp { year, month, day, hour, minute, second })
            } else {
                None
            }
        } else {
            None
        }
    }

    /// Render the timestamp as the one textual payload of a daytime
    /// answer: exactly `YYYY-MM-DD HH:MM:SS`, 19 bytes, never empty.
    pub fn render(&self) -> (line: Vec<u8>)
        requires
            spec_timestamp_ok(
                self.year,
                self.month,
                self.day,
                self.hour,
                self.minute,
                self.second,
            ),
        ensures
            line@ == spec_rendered(*self),
            line@.len() == 19,
    {
        let mut line: Vec<u8> = Vec::new();
        push_four_digits(&mut line, self.year);
        line.push(45);
        push_two_digits(&mut line, self.month);
        line.push(45);
        push_two_digits(&mut line, self.day);
        line.push(32);
        push_two_digits(&mut line, self.hour);
        line.push(58);
        push_two_digits(&mut line, self.minute);
        line.push(58);
        push_two_digits(&mut line, self.second);
        proof {
            assert(line@ =~= spec_rendered(*self));
        }
        line
    }
}

fn push_two_digits(line: &mut Vec<u8>, n: u8)
    requires
        n < 100,
    ensures
        final(line)@ == old(line)@ + spec_two_digits(n as int),
{
    line.push(48 + n / 10);
    line.push(48 + n % 10);
    proof {
        assert(line@ =~= old(line)@ + spec_two_digits(n as int));
    }
}

fn push_four_digits(line: &mut Vec<u8>, n: u16)
    requires
        n <= 9999,
    ensures
        final(line)@ == old(line)@ + spec_four_digits(n as int),
{
    line.push((48 + n / 1000) as u8);
    line.push((48 + (n / 100) % 10) as u8);
    line.push((48 + (n / 10) % 10) as u8);
    line.push((48 + n % 10) as u8);
    proof {
        assert(line@ =~= old(line)@ + spec_four_digits(n as int));
    }
}

} // verus!
