//! Reading dates and times of day with `chrono`.
//!
//! A parsed date and time is handed on as its plain values: the seconds since
//! the epoch it would be at UTC, and the nanoseconds past that second.

use vstd::prelude::*;

verus! {

/// The earliest instant `chrono` represents (`-262143-01-01T00:00:00`), in
/// seconds since the epoch.
pub const NAIVE_MIN_SECS: i64 = -8_334_601_315_200;

/// The latest second `chrono` represents (`262142-12-31T23:59:59`), in
/// seconds since the epoch.
pub const NAIVE_MAX_SECS: i64 = 8_210_266_876_799;

/// What `chrono` reads from `text` with the `strftime` format `format`, as
/// seconds since the epoch at UTC and nanoseconds past the second.
pub uninterp spec fn spec_parse_naive_datetime(text: Seq<char>, format: Seq<char>) -> Option<(i64, u32)>;

/// Parses a date and time of day.
///
/// Calls `chrono::NaiveDateTime::parse_from_str`, and reads the result as UTC
/// with `timestamp` and `timestamp_subsec_nanos`. The contract names the
/// result and states the range `chrono` documents: the date lies within the
/// representable years, and the fraction stays below two seconds (a leap
/// second exceeds 999,999,999 nanoseconds).
#[verifier::external_body]
pub(crate) fn parse_naive_datetime(text: &str, format: &str) -> (r: Option<(i64, u32)>)
    ensures
        r == spec_parse_naive_datetime(text@, format@),
        r matches Some((secs, nanos)) ==> NAIVE_MIN_SECS <= secs <= NAIVE_MAX_SECS && nanos
            < 2_000_000_000,
{
    match chrono::NaiveDateTime::parse_from_str(text, format) {
        Ok(dt) => Some((dt.and_utc().timestamp(), dt.and_utc().timestamp_subsec_nanos())),
        Err(_) => None,
    }
}

/// What `chrono` reads from `text` as a date with the `strftime` format
/// `format`: the seconds since the epoch of its midnight at UTC.
pub uninterp spec fn spec_parse_naive_date(text: Seq<char>, format: Seq<char>) -> Option<i64>;

/// Parses a date and gives the instant of its midnight.
///
/// Calls `chrono::NaiveDate::parse_from_str`, takes midnight with
/// `and_hms_opt(0, 0, 0)` (which exists on every date) and reads it as UTC
/// with `timestamp`. The contract names the result and states that the date
/// lies within the representable years.
#[verifier::external_body]
pub(crate) fn parse_naive_date(text: &str, format: &str) -> (r: Option<i64>)
    ensures
        r == spec_parse_naive_date(text@, format@),
        r matches Some(secs) ==> NAIVE_MIN_SECS <= secs <= NAIVE_MAX_SECS,
{
    match chrono::NaiveDate::parse_from_str(text, format) {
        Ok(d) => match d.and_hms_opt(0, 0, 0) {
            Some(dt) => Some(dt.and_utc().timestamp()),
            None => None,
        },
        Err(_) => None,
    }
}

} // verus!
