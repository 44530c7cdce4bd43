//! Constants of the Sinopac adapter.

use vstd::prelude::*;

verus! {

/// The venue of the instruments traded through the gateway.
pub const SINOPAC: &'static str = "SINOPAC";

/// The default address of the gateway's WebSocket endpoint.
pub const SINOPAC_GATEWAY_WS_URL: &'static str = "ws://localhost:8000/ws";

} // verus!
