//! Query parameters of the gateway's market data and account endpoints.

use vstd::prelude::*;

verus! {

/// Query of the snapshots endpoint.
#[derive(Debug, Clone)]
pub struct SnapshotsQuery {
    pub codes: String,
    pub market: Option<String>,
}

/// Query of the ticks endpoint.
#[derive(Debug, Clone)]
pub struct TicksQuery {
    pub code: String,
    pub date: String,
    pub market: Option<String>,
}

/// Query of the k-bars endpoint.
#[derive(Debug, Clone)]
pub struct KBarsQuery {
    pub code: String,
    pub start: String,
    pub end: String,
    pub market: Option<String>,
}

/// Query of the positions endpoint.
#[derive(Debug, Clone)]
pub struct PositionsQuery {
    pub market: Option<String>,
}

} // verus!
