//! Gateway WebSocket messages without prices or volumes. Tick and quote
//! payloads live with the JSON decoding in the application crate.

use vstd::prelude::*;

use crate::json::{json_member, json_object, json_string, JsonObjectWriter};

verus! {

/// A subscribe or unsubscribe command sent to the gateway.
#[derive(Debug, Clone)]
pub struct WsSubscribeMsg {
    pub action: String,
    pub contract_code: String,
    pub quote_type: String,
}

/// The JSON text of a subscribe or unsubscribe command, with its fields in
/// the order `action`, `contract_code`, `quote_type`.
pub open spec fn spec_subscribe_json(action: Seq<char>, code: Seq<char>, quote_type: Seq<char>) -> Seq<
    char,
> {
    json_object(
        seq![
            json_member("action"@, json_string(action)),
            json_member("contract_code"@, json_string(code)),
            json_member("quote_type"@, json_string(quote_type)),
        ],
    )
}

impl WsSubscribeMsg {
    /// The command as JSON text.
    pub fn to_json(&self) -> (s: String)
        ensures
            s@ == spec_subscribe_json(self.action@, self.contract_code@, self.quote_type@),
    {
        subscribe_json(self.action.as_str(), self.contract_code.as_str(), self.quote_type.as_str())
    }
}

/// The JSON text of a subscribe or unsubscribe command.
pub fn subscribe_json(action: &str, code: &str, quote_type: &str) -> (s: String)
    ensures
        s@ == spec_subscribe_json(action@, code@, quote_type@),
{
    let mut w = JsonObjectWriter::new();
    w.push_str("action", action);
    w.push_str("contract_code", code);
    w.push_str("quote_type", quote_type);
    let ghost ms = w.members();
    let s = w.finish();
    assert(ms =~= seq![
        json_member("action"@, json_string(action@)),
        json_member("contract_code"@, json_string(code@)),
        json_member("quote_type"@, json_string(quote_type@)),
    ]);
    s
}

/// Confirmation of a subscription or unsubscription.
#[derive(Debug, Clone)]
pub struct WsConfirmMsg {
    pub code: String,
    pub quote_type: String,
}

/// An error reported by the gateway.
#[derive(Debug, Clone)]
pub struct WsErrorMsg {
    pub detail: String,
}

} // verus!
