//! The publication time of a feed item: the record's date at two o'clock in
//! the afternoon in Seoul, written as RFC 2822 asks. Calendar and time zone
//! are `chrono`'s and `chrono_tz`'s.

use chrono::{Datelike, NaiveDate, TimeZone};
use chrono_tz::Tz;
use vstd::prelude::*;

verus! {

/// Year, month and day that `chrono` reads from `text` under the format
/// `format`; none where the text does not fit the format or names no day of
/// the calendar.
pub uninterp spec fn date_of(text: Seq<char>, format: Seq<char>) -> Option<(i32, u32, u32)>;

/// The RFC 2822 text of the given local date and time in the time zone that
/// `chrono_tz` knows as `zone`; none where the zone is not known, the date or
/// the time does not exist, or the zone's clocks show that time twice or
/// never.
pub uninterp spec fn zoned_stamp(
    zone: Seq<char>,
    year: i32,
    month: u32,
    day: u32,
    hour: u32,
    min: u32,
    sec: u32,
) -> Option<Seq<char>>;

/// A day of the calendar.
#[derive(Clone, Copy, Debug, PartialEq, Eq)]
pub struct CalendarDate {
    pub year: i32,
    pub month: u32,
    pub day: u32,
}

/// The day that `text` names under the format `format`, none where it names
/// none.
pub open spec fn day_of(text: Seq<char>, format: Seq<char>) -> Option<CalendarDate> {
    match date_of(text, format) {
        Some((year, month, day)) => Some(CalendarDate { year, month, day }),
        None => None,
    }
}

/// The mathematical value of an optional text.
pub open spec fn stamp_view(stamp: Option<String>) -> Option<Seq<char>> {
    match stamp {
        Some(text) => Some(text@),
        None => None,
    }
}

/// `NaiveDate::parse_from_str`, the date taken apart with `Datelike::year`,
/// `month` and `day`.
#[verifier::external_body]
fn parse_date(text: &str, format: &str) -> (date: Option<(i32, u32, u32)>)
    ensures
        date == date_of(text@, format@),
{
    NaiveDate::parse_from_str(text, format).ok().map(|d| (d.year(), d.month(), d.day()))
}

/// `TimeZone::from_local_datetime` on the zone that `Tz::from_str` finds
/// under `zone`, for the local time that `NaiveDate::from_ymd_opt` and
/// `NaiveDate::and_hms_opt` make of the numbers, written with
/// `DateTime::to_rfc2822`. That last call accepts the years 0 to 9999 only.
#[verifier::external_body]
fn stamp(zone: &str, year: i32, month: u32, day: u32, hour: u32, min: u32, sec: u32) -> (text:
    Option<String>)
    requires
        0 <= year <= 9999,
    ensures
        stamp_view(text) == zoned_stamp(zone@, year, month, day, hour, min, sec),
{
    let tz: Tz = zone.parse().ok()?;
    let local = NaiveDate::from_ymd_opt(year, month, day)?.and_hms_opt(hour, min, sec)?;
    Some(tz.from_local_datetime(&local).single()?.to_rfc2822())
}

/// The publication time for a day: two o'clock in the afternoon of that day
/// in Seoul. There is none without a day, nor for a year that RFC 2822
/// cannot write.
pub open spec fn afternoon_in_seoul(date: Option<CalendarDate>) -> Option<Seq<char>> {
    match date {
        Some(date) => if 0 <= date.year <= 9999 {
            zoned_stamp("Asia/Seoul"@, date.year, date.month, date.day, 14, 0, 0)
        } else {
            None
        },
        None => None,
    }
}

/// Reads the day that `text` names under `format`.
pub fn read_date(text: &str, format: &str) -> (date: Option<CalendarDate>)
    ensures
        date == day_of(text@, format@),
{
    match parse_date(text, format) {
        Some((year, month, day)) => Some(CalendarDate { year, month, day }),
        None => None,
    }
}

/// Writes the publication time for a day.
pub fn publication_time(date: Option<CalendarDate>) -> (text: Option<String>)
    ensures
        stamp_view(text) == afternoon_in_seoul(date),
{
    match date {
        Some(date) => {
            if 0 <= date.year && date.year <= 9999 {
                stamp("Asia/Seoul", date.year, date.month, date.day, 14, 0, 0)
            } else {
                None
            }
        },
        None => None,
    }
}

} // verus!
