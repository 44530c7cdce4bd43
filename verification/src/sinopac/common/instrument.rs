//! Contract rules of Taiwan markets: lot sizes and TAIFEX multipliers.
//!
//! Sizes and multipliers are whole numbers; they are held as integers.

use vstd::prelude::*;

use crate::text::str_eq;

verus! {

/// Default stock lot size for common orders (1000 shares is one lot).
pub const STOCK_LOT_SIZE: u64 = 1000;

/// Default lot size for futures and options contracts (one contract).
pub const CONTRACT_LOT_SIZE: u64 = 1;

/// Size precision of all Taiwan instruments (whole shares and contracts).
pub const SIZE_PRECISION: u8 = 0;

/// TWD currency code.
pub const TWD: &'static str = "TWD";

/// Contract multiplier (TWD per point) for futures and options whose root is
/// not in the known tables: single-stock futures and options conventionally
/// carry a 2000-share multiplier on TAIFEX.
pub const DEFAULT_CONTRACT_MULTIPLIER: u64 = 2000;

/// The TAIFEX contract multiplier of a futures root symbol, in TWD per point.
pub open spec fn spec_futures_multiplier(symbol: Seq<char>) -> Option<u64> {
    if symbol == "TXF"@ {
        Some(200)
    } else if symbol == "MXF"@ {
        Some(50)
    } else if symbol == "T5F"@ {
        Some(100)
    } else if symbol == "XIF"@ {
        Some(200)
    } else if symbol == "ZEF"@ {
        Some(4000)
    } else if symbol == "ZFF"@ {
        Some(1000)
    } else {
        None
    }
}

/// Returns the known contract multiplier (TWD per index point) of a TAIFEX
/// futures root symbol (e.g. `TXF`, `MXF`), or `None` for an unknown root so
/// that the caller can apply [`DEFAULT_CONTRACT_MULTIPLIER`].
pub fn futures_multiplier(symbol: &str) -> (m: Option<u64>)
    ensures
        m == spec_futures_multiplier(symbol@),
{
    if str_eq(symbol, "TXF") {
        Some(200)
    } else if str_eq(symbol, "MXF") {
        Some(50)
    } else if str_eq(symbol, "T5F") {
        Some(100)
    } else if str_eq(symbol, "XIF") {
        Some(200)
    } else if str_eq(symbol, "ZEF") {
        Some(4000)
    } else if str_eq(symbol, "ZFF") {
        Some(1000)
    } else {
        None
    }
}

/// The TAIFEX contract multiplier of an options root symbol.
pub open spec fn spec_options_multiplier(symbol: Seq<char>) -> Option<u64> {
    if symbol == "TXO"@ {
        Some(50)
    } else {
        None
    }
}

/// Returns the known contract multiplier of a TAIFEX options root symbol
/// (`TXO`), or `None` for an unknown root.
pub fn options_multiplier(symbol: &str) -> (m: Option<u64>)
    ensures
        m == spec_options_multiplier(symbol@),
{
    if str_eq(symbol, "TXO") {
        Some(50)
    } else {
        None
    }
}

/// The multiplier applied to a contract: the known one for its root, else the
/// default.
pub fn multiplier_or_default(known: Option<u64>) -> (m: u64)
    ensures
        m == (match known {
            Some(k) => k,
            None => DEFAULT_CONTRACT_MULTIPLIER,
        }),
{
    match known {
        Some(k) => k,
        None => DEFAULT_CONTRACT_MULTIPLIER,
    }
}

} // verus!
