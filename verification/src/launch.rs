//! Launch records and the reading of their scheduled time.

use vstd::prelude::*;

verus! {

/// `chrono::NaiveDateTime`, a date and a time of day without a zone.
#[verifier::external_type_specification]
#[verifier::external_body]
pub struct ExNaiveDateTime(chrono::NaiveDateTime);

/// The layout of the upstream time string: weekday, month, day, year, a
/// 24-hour clock and a time-zone abbreviation.
pub const TIME_FORMAT: &'static str = "%a %b %d, %Y %H:%M %Z";

/// One upcoming launch.
#[derive(Debug, Clone, PartialEq, Eq)]
pub struct LaunchRecord {
    /// The name of the launch, as the page writes it.
    pub name: String,
    /// The scheduled instant, in seconds since the UNIX epoch, UTC.
    pub scheduled_at: i64,
    /// The launch site, free text.
    pub site: String,
    /// The path of the details page, relative to the upstream origin.
    pub details_path: String,
}

/// What a `LaunchRecord` stands for.
pub struct LaunchModel {
    pub name: Seq<char>,
    pub scheduled_at: int,
    pub site: Seq<char>,
    pub details_path: Seq<char>,
}

impl View for LaunchRecord {
    type V = LaunchModel;

    open spec fn view(&self) -> LaunchModel {
        LaunchModel {
            name: self.name@,
            scheduled_at: self.scheduled_at as int,
            site: self.site@,
            details_path: self.details_path@,
        }
    }
}

impl DeepView for LaunchRecord {
    type V = LaunchModel;

    open spec fn deep_view(&self) -> LaunchModel {
        self@
    }
}

/// The date and time that `NaiveDateTime::parse_from_str` reads from `text`
/// under `format`, if it accepts it.
pub uninterp spec fn parsed_datetime(text: Seq<char>, format: Seq<char>) -> Option<
    chrono::NaiveDateTime,
>;

/// The seconds from the UNIX epoch to `datetime`, read as a time in UTC.
pub uninterp spec fn utc_timestamp(datetime: chrono::NaiveDateTime) -> i64;

/// `NaiveDateTime::parse_from_str`: reads a date and time without a zone from
/// `text`, which must follow `format` from its first to its last character.
/// `None` where it does not, or where `format` is itself malformed.
#[verifier::external_body]
fn parse_datetime(text: &str, format: &str) -> (datetime: Option<chrono::NaiveDateTime>)
    ensures
        datetime == parsed_datetime(text@, format@),
{
    chrono::NaiveDateTime::parse_from_str(text, format).ok()
}

/// `NaiveDateTime::and_utc` followed by `DateTime::timestamp`: takes
/// `datetime` as a time in UTC and counts the seconds since the UNIX epoch.
#[verifier::external_body]
fn timestamp_of(datetime: &chrono::NaiveDateTime) -> (seconds: i64)
    ensures
        seconds == utc_timestamp(*datetime),
{
    datetime.and_utc().timestamp()
}

/// The scheduled instant that a time string of the page stands for: the
/// string is read under `TIME_FORMAT` and the result taken as UTC, whatever
/// zone the string names.
pub open spec fn scheduled_seconds(text: Seq<char>) -> Option<i64> {
    match parsed_datetime(text, TIME_FORMAT@) {
        Some(datetime) => Some(utc_timestamp(datetime)),
        None => None,
    }
}

/// Reads a time string of the page. The zone abbreviation at its end is read
/// over and not honoured: the clock time is taken as UTC.
pub fn parse_time(time_str: &str) -> (seconds: Option<i64>)
    ensures
        seconds == scheduled_seconds(time_str@),
{
    match parse_datetime(time_str, TIME_FORMAT) {
        Some(datetime) => Some(timestamp_of(&datetime)),
        None => None,
    }
}

} // verus!
