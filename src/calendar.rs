//! Calendar values read out of cells and query answers.
use chrono::Datelike;
use chrono::Timelike;
use vstd::prelude::*;

verus! {

/// A calendar day.
#[derive(Clone, Copy, Debug, PartialEq, Eq)]
pub struct Date {
    pub year: i32,
    pub month: u8,
    pub day: u8,
}

/// A calendar day and a time of day, to the second.
#[derive(Clone, Copy, Debug, PartialEq, Eq)]
pub struct DateTime {
    pub date: Date,
    pub hour: u8,
    pub minute: u8,
    pub second: u8,
}

/// Year, month and day that chrono reads from text in the form `YYYY-MM-DD`.
pub uninterp spec fn ymd_of(s: Seq<char>) -> Option<(i32, u8, u8)>;

/// Year, month, day, hour, minute and second that chrono reads from text in the
/// form `YYYY-MM-DD HH:MM:SS`, with an optional fraction of a second.
pub uninterp spec fn timestamp_of(s: Seq<char>) -> Option<(i32, u8, u8, u8, u8, u8)>;

pub open spec fn date_cell(s: Seq<char>) -> Option<Date> {
    match ymd_of(s) {
        Some(t) => Some(Date { year: t.0, month: t.1, day: t.2 }),
        None => None,
    }
}

pub open spec fn timestamp_cell(s: Seq<char>) -> Option<DateTime> {
    match timestamp_of(s) {
        Some(t) => Some(
            DateTime {
                date: Date { year: t.0, month: t.1, day: t.2 },
                hour: t.3,
                minute: t.4,
                second: t.5,
            },
        ),
        None => None,
    }
}

/// Relies on chrono's `NaiveDate::parse_from_str` with the format `%Y-%m-%d`:
/// the date it reads depends on the text alone.
#[verifier::external_body]
pub(crate) fn parse_date(s: &str) -> (r: Option<Date>)
    ensures
        r is Some <==> ymd_of(s@) is Some,
        r == date_cell(s@),
{
    chrono::NaiveDate::parse_from_str(s, "%Y-%m-%d").ok().map(
        |d| Date { year: d.year(), month: d.month() as u8, day: d.day() as u8 },
    )
}

/// Relies on chrono's `NaiveDateTime::parse_from_str` with the format
/// `%Y-%m-%d %H:%M:%S%.f`: the moment it reads depends on the text alone.
#[verifier::external_body]
pub(crate) fn parse_timestamp(s: &str) -> (r: Option<DateTime>)
    ensures
        r is Some <==> timestamp_of(s@) is Some,
        r == timestamp_cell(s@),
{
    chrono::NaiveDateTime::parse_from_str(s, "%Y-%m-%d %H:%M:%S%.f").ok().map(
        |t| DateTime {
            date: Date { year: t.year(), month: t.month() as u8, day: t.day() as u8 },
            hour: t.hour() as u8,
            minute: t.minute() as u8,
            second: t.second() as u8,
        },
    )
}

/// `a` is a strictly earlier moment than `b`.
pub open spec fn precedes(a: DateTime, b: DateTime) -> bool {
    let ka = (a.date.year, a.date.month, a.date.day, a.hour, a.minute, a.second);
    let kb = (b.date.year, b.date.month, b.date.day, b.hour, b.minute, b.second);
    if ka.0 != kb.0 {
        ka.0 < kb.0
    } else if ka.1 != kb.1 {
        ka.1 < kb.1
    } else if ka.2 != kb.2 {
        ka.2 < kb.2
    } else if ka.3 != kb.3 {
        ka.3 < kb.3
    } else if ka.4 != kb.4 {
        ka.4 < kb.4
    } else {
        ka.5 < kb.5
    }
}

/// Tells whether `a` is a strictly earlier moment than `b`.
pub fn is_before(a: &DateTime, b: &DateTime) -> (r: bool)
    ensures
        r == precedes(*a, *b),
{
    if a.date.year != b.date.year {
        a.date.year < b.date.year
    } else if a.date.month != b.date.month {
        a.date.month < b.date.month
    } else if a.date.day != b.date.day {
        a.date.day < b.date.day
    } else if a.hour != b.hour {
        a.hour < b.hour
    } else if a.minute != b.minute {
        a.minute < b.minute
    } else {
        a.second < b.second
    }
}

} // verus!
