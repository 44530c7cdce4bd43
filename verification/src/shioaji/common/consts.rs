//! Constants of the Shioaji adapter.

use vstd::prelude::*;

verus! {

/// The venue of the instruments traded through the gateway.
pub const SINOPAC: &'static str = "SINOPAC";

/// The default address of the gateway's HTTP API.
pub const SHIOAJI_GATEWAY_HTTP_URL: &'static str = "http://localhost:8000";

/// The default address of the gateway's WebSocket endpoint.
pub const SHIOAJI_GATEWAY_WS_URL: &'static str = "ws://localhost:8000/ws";

} // verus!
