//! Instants and dates, read with chrono.

use vstd::prelude::*;
use chrono::Datelike;
use crate::json::{deref_opt, opt_str, str_of, Json};
use crate::paths::{has_rollout_date, rollout_date, rollout_rest};
use vstd::utf8::decode_utf8;

verus! {

/// What `DateTime::parse_from_rfc3339` followed by `timestamp_millis` gives
/// for a text: the instant in milliseconds since the Unix epoch, or nothing
/// when the text is not an RFC 3339 timestamp.
pub uninterp spec fn rfc3339_millis(text: Seq<char>) -> Option<i64>;

/// What `NaiveDate::parse_from_str(text, format)` gives, as year, month and day.
pub uninterp spec fn calendar_date(text: Seq<char>, format: Seq<char>) -> Option<(i32, u32, u32)>;

/// Calls chrono's `DateTime::parse_from_rfc3339` and `timestamp_millis`.
/// Claims only that the result is the function of the text named
/// `rfc3339_millis`.
#[verifier::external_body]
fn parse_rfc3339_millis(text: &str) -> (r: Option<i64>)
    ensures
        r == rfc3339_millis(text@),
{
    match chrono::DateTime::parse_from_rfc3339(text) {
        Ok(value) => Some(value.timestamp_millis()),
        Err(_) => None,
    }
}

/// Calls chrono's `NaiveDate::parse_from_str` and reads the date back as
/// year, month and day. Claims only that the result is the function of the
/// two texts named `calendar_date`.
#[verifier::external_body]
fn parse_calendar_date(text: &str, format: &str) -> (r: Option<(i32, u32, u32)>)
    ensures
        r == calendar_date(text@, format@),
{
    match chrono::NaiveDate::parse_from_str(text, format) {
        Ok(day) => Some((day.year(), day.month(), day.day())),
        Err(_) => None,
    }
}

/// A date and time of day on the local wall clock.
#[derive(PartialEq, Eq, Structural, Debug, Clone, Copy)]
pub struct LocalDateTime {
    pub year: i32,
    pub month: u32,
    pub day: u32,
    pub hour: u32,
    pub min: u32,
    pub sec: u32,
}

/// Days from 1970-01-01 to a date of the proleptic Gregorian calendar
/// (negative before it).
pub open spec fn days_from_civil(year: int, month: int, day: int) -> int {
    let y = if month <= 2 { year - 1 } else { year };
    let era = y / 400;
    let year_of_era = y - era * 400;
    let shifted_month = if month > 2 { month - 3 } else { month + 9 };
    let day_of_year = (153 * shifted_month + 2) / 5 + day - 1;
    let day_of_era = year_of_era * 365 + year_of_era / 4 - year_of_era / 100 + day_of_year;
    era * 146097 + day_of_era - 719468
}

/// The instant, in milliseconds since the Unix epoch, that a wall-clock
/// reading names when read as UTC.
pub open spec fn wall_clock_ms(local: LocalDateTime) -> int {
    days_from_civil(local.year as int, local.month as int, local.day as int) * 86_400_000 + (local.hour * 3600
        + local.min * 60 + local.sec) * 1000
}

/// Calls chrono's `NaiveDate::from_ymd_opt`, `and_hms_opt` and
/// `and_local_timezone(Local)`: the instants at which that local date and
/// time occur in the machine's time zone, as earliest and latest (both the
/// same when there is one, none in a gap or for an impossible date). Which
/// instants these are depends on that time zone, so the contract claims only
/// what holds in every zone: each is the wall-clock reading minus the zone's
/// offset, and chrono keeps every offset (`FixedOffset`) under a day, so each
/// lies less than a day from the reading taken as UTC.
#[verifier::external_body]
fn local_instants(local: LocalDateTime) -> (r: (Option<i64>, Option<i64>))
    ensures
        r.0 matches Some(t) ==> wall_clock_ms(local) - 86_400_000 < t < wall_clock_ms(local) + 86_400_000,
        r.1 matches Some(t) ==> wall_clock_ms(local) - 86_400_000 < t < wall_clock_ms(local) + 86_400_000,
{
    let time = match chrono::NaiveDate::from_ymd_opt(local.year, local.month, local.day) {
        Some(date) => date.and_hms_opt(local.hour, local.min, local.sec),
        None => None,
    };
    match time {
        Some(time) => match time.and_local_timezone(chrono::Local) {
            chrono::LocalResult::Single(t) => (Some(t.timestamp_millis()), Some(t.timestamp_millis())),
            chrono::LocalResult::Ambiguous(a, b) => (Some(a.timestamp_millis()), Some(b.timestamp_millis())),
            chrono::LocalResult::None => (None, None),
        },
        None => (None, None),
    }
}

/// The start of a day: midnight of that date.
pub fn local_midnight(date: (i32, u32, u32)) -> (r: LocalDateTime)
    ensures
        r == (LocalDateTime { year: date.0, month: date.1, day: date.2, hour: 0, min: 0, sec: 0 }),
{
    LocalDateTime { year: date.0, month: date.1, day: date.2, hour: 0, min: 0, sec: 0 }
}

/// Of the instants at which a local time occurs (earliest, latest), the
/// earliest; nothing when the local time does not occur.
pub fn earliest_instant(found: (Option<i64>, Option<i64>)) -> (r: Option<i64>)
    ensures
        r == found.0,
{
    found.0
}

/// The instant a record's `timestamp` field names, when it is an RFC 3339 string.
pub open spec fn spec_timestamp_ms(value: Option<Json>) -> Option<i64> {
    match opt_str(value) {
        Some(text) => rfc3339_millis(text),
        None => None,
    }
}

/// Reads a record's timestamp in milliseconds since the Unix epoch.
pub fn timestamp_ms(value: Option<&Json>) -> (r: Option<i64>)
    ensures
        r == spec_timestamp_ms(deref_opt(value)),
{
    match str_of(value) {
        Some(text) => parse_rfc3339_millis(text),
        None => None,
    }
}

/// The local wall-clock time at which a `rollout-YYYY-MM-DD...` session is
/// taken to start: midnight of the `%Y-%m-%d` date in its file name.
pub open spec fn spec_session_midnight(file_name: Option<Seq<char>>) -> Option<LocalDateTime> {
    if has_rollout_date(file_name) {
        match calendar_date(decode_utf8(rollout_rest(file_name->0).take(10)), "%Y-%m-%d"@) {
            Some(d) => Some(LocalDateTime { year: d.0, month: d.1, day: d.2, hour: 0, min: 0, sec: 0 }),
            None => None,
        }
    } else {
        None
    }
}

/// Reads the local midnight a session file name starts on.
pub fn session_midnight(file_name: Option<&str>) -> (r: Option<LocalDateTime>)
    ensures
        r == spec_session_midnight(match file_name { Some(n) => Some(n@), None => None }),
{
    broadcast use vstd::utf8::encode_utf8_decode_utf8;

    let date = match rollout_date(file_name) {
        Some(d) => d,
        None => return None,
    };
    match parse_calendar_date(date.as_str(), "%Y-%m-%d") {
        Some(date) => Some(local_midnight(date)),
        None => None,
    }
}

/// When a `rollout-YYYY-MM-DD...` session started: the earliest instant at
/// which the machine's time zone places the local midnight of
/// `session_midnight` (`earliest_instant`). Nothing when the name gives no
/// such midnight, or midnight does not occur locally on that date. The
/// instant lies less than a day from that midnight taken as UTC.
pub fn session_started_ms(file_name: Option<&str>) -> (r: Option<i64>)
    ensures
        r is Some ==> spec_session_midnight(match file_name { Some(n) => Some(n@), None => None }) is Some,
        r matches Some(t) ==> wall_clock_ms(spec_session_midnight(match file_name { Some(n) => Some(n@), None => None })->0)
            - 86_400_000 < t < wall_clock_ms(spec_session_midnight(match file_name { Some(n) => Some(n@), None => None })->0)
            + 86_400_000,
{
    match session_midnight(file_name) {
        Some(midnight) => earliest_instant(local_instants(midnight)),
        None => None,
    }
}

} // verus!
