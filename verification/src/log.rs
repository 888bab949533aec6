//! Where a saved log goes.
//!
//! A log is the raw output of the child, written to a file in the temporary
//! directory of the system.  The file is named after the moment of saving:
//! `osutil_log_YYYY-MM-DD-HH-MM-SS.log`.

use crate::paths::{join_path, path_join};
use vstd::prelude::*;

verus! {

/// A moment in time, to the second.
#[derive(Debug, Clone, Copy, PartialEq, Eq, Structural)]
pub struct Timestamp {
    year: u16,
    month: u8,
    day: u8,
    hour: u8,
    minute: u8,
    second: u8,
}

/// The mathematical value of a [`Timestamp`].
pub struct TimestampView {
    pub year: nat,
    pub month: nat,
    pub day: nat,
    pub hour: nat,
    pub minute: nat,
    pub second: nat,
}

impl TimestampView {
    /// The fields of a timestamp are those of a calendar date of four
    /// digits and of a time of day.
    pub open spec fn valid(self) -> bool {
        &&& self.year <= 9999
        &&& 1 <= self.month <= 12
        &&& 1 <= self.day <= 31
        &&& self.hour <= 23
        &&& self.minute <= 59
        &&& self.second <= 59
    }
}

impl View for Timestamp {
    type V = TimestampView;

    closed spec fn view(&self) -> TimestampView {
        TimestampView {
            year: self.year as nat,
            month: self.month as nat,
            day: self.day as nat,
            hour: self.hour as nat,
            minute: self.minute as nat,
            second: self.second as nat,
        }
    }
}

/// The decimal digit for `value`, which is below ten.
pub open spec fn digit(value: nat) -> char {
    if value == 0 {
        '0'
    } else if value == 1 {
        '1'
    } else if value == 2 {
        '2'
    } else if value == 3 {
        '3'
    } else if value == 4 {
        '4'
    } else if value == 5 {
        '5'
    } else if value == 6 {
        '6'
    } else if value == 7 {
        '7'
    } else if value == 8 {
        '8'
    } else {
        '9'
    }
}

/// `value` in two decimal digits, with a leading zero where it is below ten.
pub open spec fn two_digits(value: nat) -> Seq<char> {
    seq![digit(value / 10 % 10), digit(value % 10)]
}

/// `value` in four decimal digits, with leading zeros.
pub open spec fn four_digits(value: nat) -> Seq<char> {
    seq![
        digit(value / 1000 % 10),
        digit(value / 100 % 10),
        digit(value / 10 % 10),
        digit(value % 10),
    ]
}

/// The date and time of `at` as they stand in a log's name.
pub open spec fn stamp_text(at: TimestampView) -> Seq<char> {
    four_digits(at.year) + seq!['-'] + two_digits(at.month) + seq!['-'] + two_digits(at.day)
        + seq!['-'] + two_digits(at.hour) + seq!['-'] + two_digits(at.minute) + seq!['-']
        + two_digits(at.second)
}

/// The name of the log saved at `at`.
pub open spec fn log_name(at: TimestampView) -> Seq<char> {
    seq!['o', 's', 'u', 't', 'i', 'l', '_', 'l', 'o', 'g', '_'] + stamp_text(at) + seq![
        '.',
        'l',
        'o',
        'g',
    ]
}

impl Timestamp {
    /// The timestamp with the given fields, where they are those of a date
    /// of four digits and of a time of day.
    pub fn new(year: u16, month: u8, day: u8, hour: u8, minute: u8, second: u8) -> (made: Option<
        Timestamp,
    >)
        ensures
            made is Some <==> (TimestampView {
                year: year as nat,
                month: month as nat,
                day: day as nat,
                hour: hour as nat,
                minute: minute as nat,
                second: second as nat,
            }).valid(),
            made matches Some(at) ==> at@ == (TimestampView {
                year: year as nat,
                month: month as nat,
                day: day as nat,
                hour: hour as nat,
                minute: minute as nat,
                second: second as nat,
            }) && at.wf(),
    {
        if year <= 9999 && 1 <= month && month <= 12 && 1 <= day && day <= 31 && hour <= 23
            && minute <= 59 && second <= 59 {
            Some(Timestamp { year, month, day, hour, minute, second })
        } else {
            None
        }
    }

    /// The time that names a log: the local time where it is known, else
    /// the time in UTC.
    pub fn local_or_utc(local: Option<Timestamp>, utc: Timestamp) -> (chosen: Timestamp)
        ensures
            chosen == match local {
                Some(time) => time,
                None => utc,
            },
    {
        match local {
            Some(time) => time,
            None => utc,
        }
    }

    /// True of every timestamp that [`Timestamp::new`] made.
    pub open spec fn wf(&self) -> bool {
        self@.valid()
    }
}

/// The text of one decimal digit.
fn digit_text(value: u8) -> (text: &'static str)
    requires
        value <= 9,
    ensures
        text@ == seq![digit(value as nat)],
{
    proof {
        reveal_strlit("0");
        reveal_strlit("1");
        reveal_strlit("2");
        reveal_strlit("3");
        reveal_strlit("4");
        reveal_strlit("5");
        reveal_strlit("6");
        reveal_strlit("7");
        reveal_strlit("8");
        reveal_strlit("9");
    }
    let text = if value == 0 {
        "0"
    } else if value == 1 {
        "1"
    } else if value == 2 {
        "2"
    } else if value == 3 {
        "3"
    } else if value == 4 {
        "4"
    } else if value == 5 {
        "5"
    } else if value == 6 {
        "6"
    } else if value == 7 {
        "7"
    } else if value == 8 {
        "8"
    } else {
        "9"
    };
    text
}

/// Appends `value` to `text` in two digits.
fn push_two_digits(text: &mut String, value: u8)
    requires
        value <= 99,
    ensures
        final(text)@ == old(text)@ + two_digits(value as nat),
{
    text.append(digit_text(value / 10));
    text.append(digit_text(value % 10));
}

/// Appends `value` to `text` in four digits.
fn push_four_digits(text: &mut String, value: u16)
    requires
        value <= 9999,
    ensures
        final(text)@ == old(text)@ + four_digits(value as nat),
{
    let thousands: u8 = (value / 1000) as u8;
    let hundreds: u8 = (value / 100 % 10) as u8;
    let tens: u8 = (value / 10 % 10) as u8;
    let ones: u8 = (value % 10) as u8;
    text.append(digit_text(thousands));
    text.append(digit_text(hundreds));
    text.append(digit_text(tens));
    text.append(digit_text(ones));
}

/// The name of the log saved at `at`: `osutil_log_`, the date and the time
/// with their fields joined by `-`, and `.log`.
pub fn log_file_name(at: &Timestamp) -> (name: String)
    requires
        at.wf(),
    ensures
        name@ == log_name(at@),
{
    proof {
        reveal_strlit("osutil_log_");
        reveal_strlit("-");
        reveal_strlit(".log");
    }
    let mut name = String::from_str("osutil_log_");
    push_four_digits(&mut name, at.year);
    name.append("-");
    push_two_digits(&mut name, at.month);
    name.append("-");
    push_two_digits(&mut name, at.day);
    name.append("-");
    push_two_digits(&mut name, at.hour);
    name.append("-");
    push_two_digits(&mut name, at.minute);
    name.append("-");
    push_two_digits(&mut name, at.second);
    name.append(".log");
    name
}

/// The path of the log saved at `at`, in the directory `temp_dir`.
pub fn log_path(temp_dir: &str, at: &Timestamp) -> (path: String)
    requires
        at.wf(),
    ensures
        path@ == path_join(temp_dir@, log_name(at@)),
{
    let name = log_file_name(at);
    join_path(temp_dir, name.as_str())
}

} // verus!
