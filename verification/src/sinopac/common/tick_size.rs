//! Tick sizes of TAIFEX futures.
//!
//! A tick size is held exactly as a decimal: `units` steps of `10^-precision`.

use vstd::prelude::*;

use crate::text::str_eq;

verus! {

/// A price increment of `units * 10^-precision`, with `precision` decimals.
#[derive(Debug, Clone, Copy, PartialEq, Eq, Structural)]
pub struct TickSize {
    pub units: u32,
    pub precision: u8,
}

/// The tick size of a TAIFEX futures root symbol: index futures move by 1.0,
/// the sector futures `ZEF` and `ZFF` by 0.2, and any other root by 1.0.
pub open spec fn spec_futures_tick_size(symbol: Seq<char>) -> TickSize {
    if symbol == "TXF"@ || symbol == "MXF"@ || symbol == "T5F"@ || symbol == "XIF"@ {
        TickSize { units: 1, precision: 0 }
    } else if symbol == "ZEF"@ || symbol == "ZFF"@ {
        TickSize { units: 2, precision: 1 }
    } else {
        TickSize { units: 1, precision: 0 }
    }
}

/// Returns the tick size and precision of a TAIFEX futures contract.
pub fn futures_tick_size(symbol: &str) -> (t: TickSize)
    ensures
        t == spec_futures_tick_size(symbol@),
{
    if str_eq(symbol, "TXF") || str_eq(symbol, "MXF") || str_eq(symbol, "T5F") || str_eq(symbol, "XIF") {
        TickSize { units: 1, precision: 0 }
    } else if str_eq(symbol, "ZEF") || str_eq(symbol, "ZFF") {
        TickSize { units: 2, precision: 1 }
    } else {
        TickSize { units: 1, precision: 0 }
    }
}

/// Every TAIFEX futures root moves by 1.0 with no decimals, the index
/// futures `TXF`, `MXF`, `T5F` and `XIF` among them; only the sector futures
/// `ZEF` and `ZFF` move by 0.2 with one decimal.
pub proof fn lemma_futures_tick_sizes(symbol: Seq<char>)
    ensures
        spec_futures_tick_size(symbol) == (if symbol == "ZEF"@ || symbol == "ZFF"@ {
            TickSize { units: 2, precision: 1 }
        } else {
            TickSize { units: 1, precision: 0 }
        }),
{
    reveal_strlit("TXF");
    reveal_strlit("MXF");
    reveal_strlit("T5F");
    reveal_strlit("XIF");
    reveal_strlit("ZEF");
    reveal_strlit("ZFF");
    assert("TXF"@[0] != 'Z' && "MXF"@[0] != 'Z' && "T5F"@[0] != 'Z' && "XIF"@[0] != 'Z');
    assert("ZEF"@[0] == 'Z' && "ZFF"@[0] == 'Z');
}

} // verus!
