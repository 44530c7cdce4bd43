//! Errors of the gateway WebSocket client.

use vstd::prelude::*;

use crate::text::concat2;

verus! {

/// Errors of the gateway WebSocket client.
#[derive(Debug, Clone, PartialEq, Eq)]
pub enum SinopacWsError {
    NotConnected,
    Send(String),
    Connection(String),
    Json(String),
}

impl SinopacWsError {
    /// The text that describes the error.
    pub open spec fn spec_message(self) -> Seq<char> {
        match self {
            SinopacWsError::NotConnected => "WebSocket not connected"@,
            SinopacWsError::Send(m) => "Send failed: "@ + m@,
            SinopacWsError::Connection(m) => "Connection failed: "@ + m@,
            SinopacWsError::Json(m) => "JSON error: "@ + m@,
        }
    }

    /// The text that describes the error, e.g. `Send failed: closed`.
    pub fn message(&self) -> (s: String)
        ensures
            s@ == self.spec_message(),
    {
        match self {
            SinopacWsError::NotConnected => String::from_str("WebSocket not connected"),
            SinopacWsError::Send(m) => concat2("Send failed: ", m.as_str()),
            SinopacWsError::Connection(m) => concat2("Connection failed: ", m.as_str()),
            SinopacWsError::Json(m) => concat2("JSON error: ", m.as_str()),
        }
    }
}

} // verus!
