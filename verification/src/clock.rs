//! Instants and the calendar: reading the clock, reading a date and time
//! from text, and writing an instant as a date and time.

use crate::models::{text_view, Timestamp};
use chrono::{DateTime, NaiveDateTime, Utc};
use vstd::prelude::*;

verus! {

/// The instant that a text of the shape `YYYY-MM-DDTHH:MM:SS` names when it
/// is read as a date and time in UTC, as seconds and nanoseconds; `None`
/// where the text has another shape or names no date and time.
pub uninterp spec fn datetime_reading(s: Seq<char>) -> Option<(int, int)>;

/// The date and time of an instant in UTC, written as `YYYY-MM-DD HH:MM:SS`;
/// `None` for an instant that the calendar does not reach.
pub uninterp spec fn calendar_text(secs: int, nanos: int) -> Option<Seq<char>>;

/// The seconds and nanoseconds of an instant, if there is one.
pub open spec fn instant_parts(t: Option<Timestamp>) -> Option<(int, int)> {
    match t {
        Some(t) => Some((t.secs as int, t.nanos as int)),
        None => None,
    }
}

/// The instant that a text of the shape `YYYY-MM-DDTHH:MM:SS` names.
pub open spec fn instant_read(s: Seq<char>) -> Option<Timestamp> {
    match datetime_reading(s) {
        Some((secs, nanos)) => Some(Timestamp { secs: secs as i64, nanos: nanos as u32 }),
        None => None,
    }
}

/// Reads the system clock with `chrono::Utc::now` and hands the instant out
/// as `DateTime::timestamp` and `DateTime::timestamp_subsec_nanos` give it.
/// Nothing is claimed of the instant: it is whatever the clock shows.
/// `Utc::now` stops the program where the clock is set before 1970.
#[verifier::external_body]
pub(crate) fn now() -> (t: Timestamp) {
    let now = Utc::now();
    Timestamp { secs: now.timestamp(), nanos: now.timestamp_subsec_nanos() }
}

/// Reads a date and time with `chrono::NaiveDateTime::parse_from_str` and
/// the format `%Y-%m-%dT%H:%M:%S`, and takes it as UTC. The result depends
/// on the text alone and is named `datetime_reading`.
#[verifier::external_body]
pub(crate) fn read_datetime(s: &str) -> (t: Option<Timestamp>)
    ensures
        instant_parts(t) == datetime_reading(s@),
{
    match NaiveDateTime::parse_from_str(s, "%Y-%m-%dT%H:%M:%S") {
        Ok(naive) => {
            let utc = naive.and_utc();
            Some(Timestamp { secs: utc.timestamp(), nanos: utc.timestamp_subsec_nanos() })
        },
        Err(_) => None,
    }
}

/// Writes an instant with `chrono::DateTime::from_timestamp` and
/// `DateTime::format`, format `%Y-%m-%d %H:%M:%S`. The result depends on the
/// instant alone and is named `calendar_text`.
#[verifier::external_body]
pub(crate) fn write_datetime(t: Timestamp) -> (s: Option<String>)
    ensures
        text_view(s) == calendar_text(t.secs as int, t.nanos as int),
{
    match DateTime::<Utc>::from_timestamp(t.secs, t.nanos) {
        Some(utc) => Some(utc.format("%Y-%m-%d %H:%M:%S").to_string()),
        None => None,
    }
}

} // verus!
