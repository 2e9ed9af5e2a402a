use vstd::prelude::*;
use chrono::{Datelike, Timelike};

verus! {

/// A day of the calendar: year, month and day of the month.
#[derive(Clone, Copy, Debug, PartialEq, Eq, Structural)]
pub struct CalendarDate {
    pub year: i32,
    pub month: u32,
    pub day: u32,
}

/// A day of the calendar and a time of that day.
#[derive(Clone, Copy, Debug, PartialEq, Eq, Structural)]
pub struct CalendarDateTime {
    pub date: CalendarDate,
    pub hour: u32,
    pub minute: u32,
    pub second: u32,
    /// Nanoseconds since the whole second; a thousand million or more in a leap second.
    pub nanosecond: u32,
}

/// The time of a price bar: a day for bars of a day or longer, a day and a
/// time of day for shorter ones.
#[derive(Clone, Copy, Debug, PartialEq, Eq, Structural)]
pub enum StockTime {
    DateTime(CalendarDateTime),
    Date(CalendarDate),
}

impl CalendarDate {
    /// The month and the day lie in the ranges of the calendar.
    pub open spec fn wf(self) -> bool {
        &&& 1 <= self.month <= 12
        &&& 1 <= self.day <= 31
    }
}

impl CalendarDateTime {
    /// The date and each part of the time lie in their ranges.
    pub open spec fn wf(self) -> bool {
        &&& self.date.wf()
        &&& self.hour <= 23
        &&& self.minute <= 59
        &&& self.second <= 59
        &&& self.nanosecond <= 1_999_999_999
    }
}

impl StockTime {
    /// The date or the date and time held is well formed.
    pub open spec fn wf(self) -> bool {
        match self {
            StockTime::DateTime(t) => t.wf(),
            StockTime::Date(d) => d.wf(),
        }
    }
}

/// The ways in which a response writes the time of a bar.
#[derive(Clone, Copy, Debug, PartialEq, Eq, Structural)]
pub enum TimeFormat {
    /// Year, month and day with hyphens between them.
    Day,
    /// Year, month, day, hour and minute, with nothing between them.
    Minute,
    /// A day with hyphens, a space, and hour, minute and second with colons.
    Second,
}

impl TimeFormat {
    /// The format as `chrono` takes it.
    pub open spec fn pattern(self) -> Seq<char> {
        match self {
            TimeFormat::Day => "%Y-%m-%d"@,
            TimeFormat::Minute => "%Y%m%d%H%M"@,
            TimeFormat::Second => "%Y-%m-%d %H:%M:%S"@,
        }
    }
}

/// The date that `chrono` reads from `text` under `format`, or `None` where it
/// reads none.
pub uninterp spec fn chrono_date(text: Seq<char>, format: Seq<char>) -> Option<CalendarDate>;

/// The date and time that `chrono` reads from `text` under `format`, or `None`
/// where it reads none.
pub uninterp spec fn chrono_date_time(text: Seq<char>, format: Seq<char>) -> Option<
    CalendarDateTime,
>;

/// Calls `chrono::NaiveDate::parse_from_str` and takes year, month and day out
/// of the date. The result depends on the two texts alone; month and day lie in
/// the ranges that `chrono` documents for them.
#[verifier::external_body]
fn parse_date(text: &str, format: &str) -> (r: Option<CalendarDate>)
    ensures
        r == chrono_date(text@, format@),
        r matches Some(d) ==> d.wf(),
{
    match chrono::NaiveDate::parse_from_str(text, format) {
        Ok(d) => Some(CalendarDate { year: d.year(), month: d.month(), day: d.day() }),
        Err(_) => None,
    }
}

/// Calls `chrono::NaiveDateTime::parse_from_str` and takes the date and the
/// parts of the time out of the result. The result depends on the two texts
/// alone; each part lies in the range that `chrono` documents for it.
#[verifier::external_body]
fn parse_date_time(text: &str, format: &str) -> (r: Option<CalendarDateTime>)
    ensures
        r == chrono_date_time(text@, format@),
        r matches Some(t) ==> t.wf(),
{
    match chrono::NaiveDateTime::parse_from_str(text, format) {
        Ok(t) => Some(
            CalendarDateTime {
                date: CalendarDate { year: t.year(), month: t.month(), day: t.day() },
                hour: t.hour(),
                minute: t.minute(),
                second: t.second(),
                nanosecond: t.nanosecond(),
            },
        ),
        Err(_) => None,
    }
}

/// Calls `chrono::Local::now` and writes the local date in the format of a day, the only one
/// admitted: `chrono` panics on a bad format. The day depends on the clock, its shape does not.
#[verifier::external_body]
fn local_date_text(format: &str) -> (r: String)
    requires
        format@ == TimeFormat::Day.pattern(),
    ensures
        written_day(r@),
{
    chrono::Local::now().format(format).to_string()
}

/// The time that `text` denotes under `format`: a day under the format of a
/// day, a day and a time of day under the two others.
pub open spec fn stamp_time(format: TimeFormat, text: Seq<char>) -> Option<StockTime> {
    match format {
        TimeFormat::Day => match chrono_date(text, format.pattern()) {
            Some(d) => Some(StockTime::Date(d)),
            None => None,
        },
        _ => match chrono_date_time(text, format.pattern()) {
            Some(t) => Some(StockTime::DateTime(t)),
            None => None,
        },
    }
}

/// Reads the time of a bar from `text`.
pub fn read_time(format: TimeFormat, text: &str) -> (r: Option<StockTime>)
    ensures
        r == stamp_time(format, text@),
        r matches Some(t) ==> t.wf() && (t is Date <==> format == TimeFormat::Day),
{
    match format {
        TimeFormat::Day => match parse_date(text, "%Y-%m-%d") {
            Some(d) => Some(StockTime::Date(d)),
            None => None,
        },
        TimeFormat::Minute => match parse_date_time(text, "%Y%m%d%H%M") {
            Some(t) => Some(StockTime::DateTime(t)),
            None => None,
        },
        TimeFormat::Second => match parse_date_time(text, "%Y-%m-%d %H:%M:%S") {
            Some(t) => Some(StockTime::DateTime(t)),
            None => None,
        },
    }
}

/// The local date of this moment, written as year, month and day with hyphens.
pub fn today() -> (r: String)
    ensures
        written_day(r@),
{
    local_date_text("%Y-%m-%d")
}

/// The number that the two digits of `s` at `at` and after it denote.
pub open spec fn two_digits(s: Seq<char>, at: int) -> nat {
    crate::text::digit_value(s[at]) * 10 + crate::text::digit_value(s[at + 1])
}

/// Whether `s` is a day as `chrono` writes one under the format of a day: the
/// year in four digits or more, which may follow a sign; a hyphen; the month
/// in two digits, from 01 to 12; a hyphen; the day in two digits, from 01 to 31.
pub open spec fn written_day(s: Seq<char>) -> bool {
    let from: int = if s.len() > 0 && (s[0] == '+' || s[0] == '-') {
        1
    } else {
        0
    };
    let month = from + crate::number::digit_run(s, from) + 1;
    &&& crate::number::digit_run(s, from) >= 4
    &&& s.len() == month + 5
    &&& s[month - 1] == '-'
    &&& crate::text::is_digit(s[month])
    &&& crate::text::is_digit(s[month + 1])
    &&& 1 <= two_digits(s, month) <= 12
    &&& s[month + 2] == '-'
    &&& crate::text::is_digit(s[month + 3])
    &&& crate::text::is_digit(s[month + 4])
    &&& 1 <= two_digits(s, month + 3) <= 31
}

} // verus!
