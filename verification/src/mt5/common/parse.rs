//! Utility parsing functions for the MT5 adapter.

use vstd::prelude::*;

use crate::model::InstrumentId;

verus! {

/// The venue name of instruments traded through MT5.
pub const MT5_VENUE: &'static str = "MT5";

/// Why an MT5 value could not be parsed.
#[derive(Debug, Clone, Copy, PartialEq, Eq, Structural)]
pub enum ParseError {
    /// The timestamp lies before the epoch.
    NegativeTimestamp(i64),
    /// The timestamp in nanoseconds does not fit in 64 bits.
    TimestampOverflow(i64),
}

/// Parse an MT5 symbol into an instrument identifier on the `MT5` venue.
/// Every symbol is accepted.
pub fn parse_instrument_id(symbol: &str) -> (r: Result<InstrumentId, ParseError>)
    ensures
        r matches Ok(id) && id.symbol@ == symbol@ && id.venue@ == MT5_VENUE@,
{
    Ok(InstrumentId::new(symbol, MT5_VENUE))
}

/// The result of scaling a non-negative timestamp by `factor` into
/// nanoseconds, or the reason it cannot be done.
pub open spec fn spec_scaled_nanos(t: i64, factor: int) -> Result<u64, ParseError> {
    if t < 0 {
        Err(ParseError::NegativeTimestamp(t))
    } else if t * factor > u64::MAX {
        Err(ParseError::TimestampOverflow(t))
    } else {
        Ok((t * factor) as u64)
    }
}

fn scale_to_nanos(t: i64, factor: u64) -> (r: Result<u64, ParseError>)
    requires
        factor > 0,
    ensures
        r == spec_scaled_nanos(t, factor as int),
{
    if t < 0 {
        return Err(ParseError::NegativeTimestamp(t));
    }
    let v = t as u64;
    if v > u64::MAX / factor {
        proof {
            assert(v * factor > u64::MAX) by (nonlinear_arith)
                requires
                    v > u64::MAX / factor,
                    factor > 0,
            ;
        }
        Err(ParseError::TimestampOverflow(t))
    } else {
        proof {
            assert(v * factor <= u64::MAX) by (nonlinear_arith)
                requires
                    v <= u64::MAX / factor,
                    factor > 0,
            ;
        }
        Ok(v * factor)
    }
}

/// Parse a timestamp in MT5 milliseconds into nanoseconds since the epoch,
/// checking that it is not negative and that it fits.
pub fn parse_timestamp_ms(ms: i64) -> (r: Result<u64, ParseError>)
    ensures
        r == spec_scaled_nanos(ms, 1_000_000),
{
    scale_to_nanos(ms, 1_000_000)
}

/// Parse a timestamp in MT5 seconds into nanoseconds since the epoch,
/// checking that it is not negative and that it fits.
pub fn parse_timestamp_s(s: i64) -> (r: Result<u64, ParseError>)
    ensures
        r == spec_scaled_nanos(s, 1_000_000_000),
{
    scale_to_nanos(s, 1_000_000_000)
}

/// A timestamp in seconds and the same instant in milliseconds convert to the
/// same nanoseconds.
pub proof fn lemma_seconds_and_millis_agree(s: i64)
    requires
        s * 1000 <= i64::MAX,
    ensures
        spec_scaled_nanos(s, 1_000_000_000) matches Ok(a) ==> spec_scaled_nanos(
            (s * 1000) as i64,
            1_000_000,
        ) == Ok::<u64, ParseError>(a),
{
    if s >= 0 {
        assert(s * 1000 * 1_000_000 == s * 1_000_000_000) by (nonlinear_arith);
    }
}

} // verus!
