//! Sinopac gateway WebSocket messages without prices or volumes.

use vstd::prelude::*;

use crate::shioaji::websocket::messages::{spec_subscribe_json, subscribe_json};
use crate::sinopac::common::enums::{SinopacOrderEvent, SinopacQuoteType};
use crate::text::concat2;

verus! {

/// A subscribe or unsubscribe command sent to the gateway.
#[derive(Debug, Clone)]
pub struct WsSubscribeMsg {
    pub action: String,
    pub contract_code: String,
    pub quote_type: SinopacQuoteType,
}

impl WsSubscribeMsg {
    /// The command as JSON text (fields `action`, `contract_code`,
    /// `quote_type`, the quote type by its gateway name).
    pub fn to_json(&self) -> (s: String)
        ensures
            s@ == spec_subscribe_json(self.action@, self.contract_code@, self.quote_type.spec_name()),
    {
        subscribe_json(self.action.as_str(), self.contract_code.as_str(), self.quote_type.as_str())
    }
}

/// Reads the kind of an order update from its `event` field; the gateway's
/// four order and deal events are known, any other is an error.
pub fn order_event_kind(event: &str) -> (r: Result<SinopacOrderEvent, String>)
    ensures
        r is Ok <==> SinopacOrderEvent::spec_from_name(event@) is Some,
        r matches Ok(k) ==> SinopacOrderEvent::spec_from_name(event@) == Some(k),
        r matches Err(m) ==> m@ == "Unknown order event type: "@ + event@,
{
    match SinopacOrderEvent::from_name(event) {
        Some(k) => Ok(k),
        None => Err(concat2("Unknown order event type: ", event)),
    }
}

/// Operation information of an order event.
#[derive(Debug, Clone)]
pub struct OperationInfo {
    pub op_type: String,
    pub op_code: String,
    pub op_msg: String,
}

/// Stock contract information of an order event.
#[derive(Debug, Clone)]
pub struct StockContractInfo {
    pub security_type: String,
    pub exchange: String,
    pub code: String,
    pub symbol: String,
    pub name: String,
}

/// Confirmation of a subscription or unsubscription.
#[derive(Debug, Clone)]
pub struct WsConfirmMsg {
    pub code: String,
    pub quote_type: String,
}

/// An error reported by the gateway.
#[derive(Debug, Clone)]
pub struct WsErrorMsg {
    pub detail: String,
}

} // verus!
