//! Shared parsing helpers of the Sinopac adapter.

use vstd::prelude::*;

use crate::model::{InstrumentId, OrderSide};
use crate::sinopac::common::clock::{
    parse_naive_date, parse_naive_datetime, spec_parse_naive_date, spec_parse_naive_datetime,
    NAIVE_MIN_SECS,
};
use crate::sinopac::common::consts::SINOPAC;
use crate::text::{concat2, replace_char, seq_replace_char, str_eq};

verus! {

/// Constructs the instrument identifier of a Sinopac contract code on the
/// `SINOPAC` venue (e.g. `2330` is `2330.SINOPAC`). An empty code names no
/// instrument.
pub fn parse_instrument_id(code: &str) -> (r: Result<InstrumentId, String>)
    ensures
        r is Ok <==> code@.len() > 0,
        r matches Ok(id) ==> id.symbol@ == code@ && id.venue@ == SINOPAC@,
        r matches Err(m) ==> m@ == "Invalid instrument code: "@ + code@,
{
    if code.unicode_len() == 0 {
        Err(concat2("Invalid instrument code: ", code))
    } else {
        Ok(InstrumentId::new(code, SINOPAC))
    }
}

/// The order side of a Sinopac action name.
pub open spec fn spec_parse_order_side(action: Seq<char>) -> Option<OrderSide> {
    if action == "Buy"@ {
        Some(OrderSide::Buy)
    } else if action == "Sell"@ {
        Some(OrderSide::Sell)
    } else {
        None
    }
}

/// Maps a Sinopac action (`Buy`, `Sell`) to an order side.
pub fn parse_order_side(action: &str) -> (r: Result<OrderSide, String>)
    ensures
        r is Ok <==> spec_parse_order_side(action@) is Some,
        r matches Ok(s) ==> spec_parse_order_side(action@) == Some(s),
        r matches Err(m) ==> m@ == "Unknown Sinopac action: "@ + action@,
{
    if str_eq(action, "Buy") {
        Ok(OrderSide::Buy)
    } else if str_eq(action, "Sell") {
        Ok(OrderSide::Sell)
    } else {
        Err(concat2("Unknown Sinopac action: ", action))
    }
}

/// Taiwan local time is 8 hours ahead of UTC.
pub const TAIWAN_UTC_OFFSET_SECS: i64 = 28_800;

/// The UTC nanoseconds of a Taiwan local time given as seconds and
/// nanoseconds past the second, when they fit in a signed 64-bit count.
pub open spec fn spec_taiwan_nanos(local_secs: int, subsec_nanos: int) -> Option<int> {
    let total = local_secs * 1_000_000_000 + subsec_nanos - TAIWAN_UTC_OFFSET_SECS * 1_000_000_000;
    if i64::MIN <= total <= i64::MAX {
        Some(total)
    } else {
        None
    }
}

/// A nanosecond count as an unsigned timestamp: counts before the epoch wrap
/// around as a two's complement conversion does.
pub open spec fn as_unsigned_nanos(total: int) -> int {
    if total >= 0 {
        total
    } else {
        total + 0x1_0000_0000_0000_0000
    }
}

/// Shifting a Taiwan local time back by 8 hours stays within the dates
/// `chrono` represents (a leap second first moves to the next second).
pub open spec fn taiwan_shift_in_range(local_secs: int, subsec_nanos: int) -> bool {
    local_secs + (if subsec_nanos >= 1_000_000_000 { 1int } else { 0 }) - TAIWAN_UTC_OFFSET_SECS
        >= NAIVE_MIN_SECS
}

/// Why a Taiwan local time could not be turned into a timestamp.
#[derive(Debug, Clone, Copy, PartialEq, Eq, Structural)]
pub enum TaiwanTimeError {
    /// The text is not a date or time in the expected format.
    Invalid,
    /// The instant does not fit in 64-bit nanoseconds.
    Overflow,
    /// The instant lies before the earliest date that can be shifted to UTC.
    OutOfRange,
}

/// Converts a Taiwan local time (UTC+8), given as the seconds since the epoch
/// it would be at UTC and the nanoseconds past that second, to nanoseconds
/// since the epoch.
pub fn taiwan_naive_to_unix_nanos(local_secs: i64, subsec_nanos: u32) -> (r: Result<u64, TaiwanTimeError>)
    requires
        subsec_nanos < 2_000_000_000,
        taiwan_shift_in_range(local_secs as int, subsec_nanos as int),
    ensures
        r is Ok <==> spec_taiwan_nanos(local_secs as int, subsec_nanos as int) is Some,
        r matches Ok(ns) ==> ns == as_unsigned_nanos(spec_taiwan_nanos(local_secs as int, subsec_nanos as int)->0),
        r matches Err(e) ==> e == TaiwanTimeError::Overflow,
{
    let total: i128 = (local_secs as i128) * 1_000_000_000 + (subsec_nanos as i128) - (TAIWAN_UTC_OFFSET_SECS as i128) * 1_000_000_000;
    if total < (i64::MIN as i128) || total > (i64::MAX as i128) {
        return Err(TaiwanTimeError::Overflow);
    }
    if total >= 0 {
        Ok(total as u64)
    } else {
        Ok((total + 0x1_0000_0000_0000_0000i128) as u64)
    }
}

/// The instant a gateway timestamp text (`YYYY-MM-DD HH:MM:SS`, with or
/// without a fraction of a second) names, read in Taiwan time.
pub open spec fn spec_parse_taiwan_timestamp_fields(ts: Seq<char>) -> Option<(i64, u32)> {
    match spec_parse_naive_datetime(ts, "%Y-%m-%d %H:%M:%S%.f"@) {
        Some(p) => Some(p),
        None => spec_parse_naive_datetime(ts, "%Y-%m-%d %H:%M:%S"@),
    }
}

/// The nanoseconds since the epoch of a Taiwan local time given as seconds
/// and nanoseconds past the second, or why they cannot be had.
pub open spec fn spec_taiwan_local_nanos(secs: int, nanos: int) -> Result<u64, TaiwanTimeError> {
    if !taiwan_shift_in_range(secs, nanos) {
        Err(TaiwanTimeError::OutOfRange)
    } else {
        match spec_taiwan_nanos(secs, nanos) {
            Some(total) => Ok(as_unsigned_nanos(total) as u64),
            None => Err(TaiwanTimeError::Overflow),
        }
    }
}

/// Converts a Taiwan local time, given as seconds and nanoseconds past the
/// second, to nanoseconds since the epoch, or tells why it cannot be done.
pub fn taiwan_local_to_unix_nanos(local_secs: i64, subsec_nanos: u32) -> (r: Result<u64, TaiwanTimeError>)
    requires
        subsec_nanos < 2_000_000_000,
    ensures
        r == spec_taiwan_local_nanos(local_secs as int, subsec_nanos as int),
{
    let carry: i128 = if subsec_nanos >= 1_000_000_000 { 1 } else { 0 };
    if (local_secs as i128) + carry - (TAIWAN_UTC_OFFSET_SECS as i128) < (NAIVE_MIN_SECS as i128) {
        Err(TaiwanTimeError::OutOfRange)
    } else {
        taiwan_naive_to_unix_nanos(local_secs, subsec_nanos)
    }
}

/// The nanoseconds since the epoch of a gateway timestamp text read in
/// Taiwan time, or why they cannot be had.
pub open spec fn spec_taiwan_timestamp(ts: Seq<char>) -> Result<u64, TaiwanTimeError> {
    match spec_parse_taiwan_timestamp_fields(ts) {
        None => Err(TaiwanTimeError::Invalid),
        Some((secs, nanos)) => spec_taiwan_local_nanos(secs as int, nanos as int),
    }
}

/// Parses a gateway timestamp in Taiwan time (`YYYY-MM-DD HH:MM:SS` with an
/// optional fraction) into nanoseconds since the epoch.
pub fn parse_taiwan_timestamp(ts: &str) -> (r: Result<u64, TaiwanTimeError>)
    ensures
        r == spec_taiwan_timestamp(ts@),
{
    let parsed = match parse_naive_datetime(ts, "%Y-%m-%d %H:%M:%S%.f") {
        Some(p) => Some(p),
        None => parse_naive_datetime(ts, "%Y-%m-%d %H:%M:%S"),
    };
    match parsed {
        None => Err(TaiwanTimeError::Invalid),
        Some((secs, nanos)) => taiwan_local_to_unix_nanos(secs, nanos),
    }
}

/// The nanoseconds since the epoch of the midnight, in Taiwan time, of a
/// gateway date (`/` separators read as `-`), or why they cannot be had.
pub open spec fn spec_date_nanos(date: Seq<char>) -> Result<u64, TaiwanTimeError> {
    match spec_parse_naive_date(seq_replace_char(date, '/', '-'), "%Y-%m-%d"@) {
        None => Err(TaiwanTimeError::Invalid),
        Some(secs) => spec_taiwan_local_nanos(secs as int, 0),
    }
}

/// Parses a gateway date (`YYYY/MM/DD` or `YYYY-MM-DD`) into the nanoseconds
/// since the epoch of its midnight in Taiwan time.
pub fn parse_date_to_nanos(date_str: &str) -> (r: Result<u64, TaiwanTimeError>)
    ensures
        r == spec_date_nanos(date_str@),
{
    proof {
        reveal_strlit("-");
        assert("-"@ =~= seq!['-']);
    }
    let normalized = replace_char(date_str, '/', '-', "-");
    match parse_naive_date(normalized.as_str(), "%Y-%m-%d") {
        None => Err(TaiwanTimeError::Invalid),
        Some(secs) => taiwan_local_to_unix_nanos(secs, 0),
    }
}

} // verus!
