//! What this library takes from `chrono` without proof: the reading and
//! writing of dates, the calendar year of a point in time, and the clock.
//!
//! Each function here only makes the call and converts between `chrono`'s
//! values and Unix timestamps in seconds. The results of the calls carry
//! names, so that the contracts of the verified functions built on them can
//! speak of them exactly.

use chrono::Datelike;
use vstd::prelude::*;

use crate::instant::{MAX_TIMESTAMP, MIN_TIMESTAMP};

verus! {

/// The earliest calendar year of which `chrono` holds every day.
pub const MIN_YEAR: i32 = -262_143;

/// The latest calendar year of which `chrono` holds every day.
pub const MAX_YEAR: i32 = 262_142;

/// `chrono`'s reason for refusing a text as a date.
#[verifier::external_type_specification]
#[verifier::external_body]
pub struct ExParseError(chrono::ParseError);

/// What `chrono::NaiveDate::parse_from_str` with the format `%Y-%m-%d` reads
/// from `text`: the Unix timestamp of midnight on that date, or nothing where
/// it refuses the text.
pub uninterp spec fn date_text_timestamp(text: Seq<char>) -> Option<int>;

/// What `chrono::NaiveDateTime::parse_from_str` with the format
/// `%Y-%m-%dT%H:%MZ` reads from `text`: the Unix timestamp of that date and
/// time, or nothing where it refuses the text.
pub uninterp spec fn datetime_text_timestamp(text: Seq<char>) -> Option<int>;

/// The calendar year that `chrono` gives the date and time with the Unix
/// timestamp `timestamp`.
pub uninterp spec fn timestamp_year(timestamp: int) -> int;

/// The Unix timestamp of midnight on 1 January of `year`, as `chrono` counts
/// it.
pub uninterp spec fn year_start_timestamp(year: int) -> int;

/// What `chrono` writes for the date and time with the Unix timestamp
/// `timestamp` under the format `%Y-%m-%dT%H:%MZ`.
pub uninterp spec fn timestamp_text(timestamp: int) -> Seq<char>;

/// Calls `chrono::NaiveDate::parse_from_str` with the format `%Y-%m-%d` and
/// hands on midnight of the date it returns as a Unix timestamp
/// (`and_time`, `and_utc`, `timestamp`), or its error.
///
/// Trusted: the result is a function of the text alone, and a date that
/// `chrono` holds has a timestamp between `MIN_TIMESTAMP` and `MAX_TIMESTAMP`.
#[verifier::external_body]
pub(crate) fn parse_date_text(text: &str) -> (r: Result<i64, chrono::ParseError>)
    ensures
        r is Ok <==> date_text_timestamp(text@) is Some,
        r matches Ok(seconds) ==> date_text_timestamp(text@) == Some(seconds as int)
            && MIN_TIMESTAMP <= seconds <= MAX_TIMESTAMP,
{
    match chrono::NaiveDate::parse_from_str(text, "%Y-%m-%d") {
        Ok(date) => Ok(date.and_time(chrono::NaiveTime::MIN).and_utc().timestamp()),
        Err(error) => Err(error),
    }
}

/// Calls `chrono::NaiveDateTime::parse_from_str` with the format
/// `%Y-%m-%dT%H:%MZ` and hands on the date and time it returns as a Unix
/// timestamp (`and_utc`, `timestamp`), or its error.
///
/// Trusted: the result is a function of the text alone, and a date and time
/// that `chrono` holds has a timestamp between `MIN_TIMESTAMP` and
/// `MAX_TIMESTAMP`.
#[verifier::external_body]
pub(crate) fn parse_datetime_text(text: &str) -> (r: Result<i64, chrono::ParseError>)
    ensures
        r is Ok <==> datetime_text_timestamp(text@) is Some,
        r matches Ok(seconds) ==> datetime_text_timestamp(text@) == Some(seconds as int)
            && MIN_TIMESTAMP <= seconds <= MAX_TIMESTAMP,
{
    match chrono::NaiveDateTime::parse_from_str(text, "%Y-%m-%dT%H:%MZ") {
        Ok(datetime) => Ok(datetime.and_utc().timestamp()),
        Err(error) => Err(error),
    }
}

/// Calls `chrono::Datelike::year` on the date and time that
/// `chrono::DateTime::from_timestamp` makes of `seconds`.
///
/// Trusted: `chrono` holds a date and time for every timestamp between
/// `MIN_TIMESTAMP` and `MAX_TIMESTAMP`; its year is a function of the
/// timestamp alone and lies between `MIN_YEAR` and `MAX_YEAR`; and the
/// following year, where `chrono` holds it, starts later than `seconds`.
#[verifier::external_body]
pub(crate) fn year_of_timestamp(seconds: i64) -> (year: i32)
    requires
        MIN_TIMESTAMP <= seconds <= MAX_TIMESTAMP,
    ensures
        year == timestamp_year(seconds as int),
        MIN_YEAR <= year <= MAX_YEAR,
        year < MAX_YEAR ==> seconds < year_start_timestamp(year + 1),
{
    chrono::DateTime::from_timestamp(seconds, 0).unwrap().naive_utc().year()
}

/// Calls `chrono::NaiveDate::from_ymd_opt` for 1 January of `year` and hands
/// on midnight of the date it returns as a Unix timestamp (`and_time`,
/// `and_utc`, `timestamp`).
///
/// Trusted: `chrono` holds that date for every year from `MIN_YEAR` to
/// `MAX_YEAR`; the timestamp is a function of the year alone, lies between
/// `MIN_TIMESTAMP` and `MAX_TIMESTAMP`, and is a whole number of minutes.
#[verifier::external_body]
pub(crate) fn timestamp_of_year_start(year: i32) -> (seconds: i64)
    requires
        MIN_YEAR <= year <= MAX_YEAR,
    ensures
        seconds == year_start_timestamp(year as int),
        MIN_TIMESTAMP <= seconds <= MAX_TIMESTAMP,
        seconds as int % 60 == 0,
{
    chrono::NaiveDate::from_ymd_opt(year, 1, 1).unwrap().and_time(
        chrono::NaiveTime::MIN,
    ).and_utc().timestamp()
}

/// Calls `chrono::NaiveDateTime::format` with the format `%Y-%m-%dT%H:%MZ` on
/// the date and time that `chrono::DateTime::from_timestamp` makes of
/// `seconds`.
///
/// Trusted: `chrono` holds a date and time for every timestamp between
/// `MIN_TIMESTAMP` and `MAX_TIMESTAMP`, and the text is a function of the
/// timestamp alone. `chrono` reads back what it wrote: under the same format
/// the text gives the timestamp again where that is a whole number of
/// minutes, and under `%Y-%m-%d` the text is refused, because the time of day
/// follows the date.
#[verifier::external_body]
pub(crate) fn format_timestamp(seconds: i64) -> (text: String)
    requires
        MIN_TIMESTAMP <= seconds <= MAX_TIMESTAMP,
    ensures
        text@ == timestamp_text(seconds as int),
        seconds as int % 60 == 0 ==> datetime_text_timestamp(text@) == Some(seconds as int),
        date_text_timestamp(text@) is None,
{
    chrono::DateTime::from_timestamp(seconds, 0).unwrap().naive_utc().format(
        "%Y-%m-%dT%H:%MZ",
    ).to_string()
}

/// Calls `chrono::Local::now` and hands on the date and time it shows in the
/// local time zone as a Unix timestamp (`naive_local`, `and_utc`,
/// `timestamp`).
///
/// Trusted: only that the timestamp is one of a date and time that `chrono`
/// holds. Two calls may differ.
#[verifier::external_body]
pub(crate) fn local_now_timestamp() -> (seconds: i64)
    ensures
        MIN_TIMESTAMP <= seconds <= MAX_TIMESTAMP,
{
    chrono::Local::now().naive_local().and_utc().timestamp()
}

} // verus!
