//! Errors of the gateway WebSocket client.

use vstd::prelude::*;

use crate::text::concat2;

verus! {

/// Errors of the gateway WebSocket client.
#[derive(Debug, Clone, PartialEq, Eq)]
pub enum ShioajiWsError {
    NotConnected,
    Send(String),
    Connection(String),
    Json(String),
}

impl ShioajiWsError {
    /// The text that describes the error.
    pub open spec fn spec_message(self) -> Seq<char> {
        match self {
            ShioajiWsError::NotConnected => "WebSocket not connected"@,
            ShioajiWsError::Send(m) => "Send failed: "@ + m@,
            ShioajiWsError::Connection(m) => "Connection failed: "@ + m@,
            ShioajiWsError::Json(m) => "JSON error: "@ + m@,
        }
    }

    /// The text that describes the error, e.g. `Send failed: closed`.
    pub fn message(&self) -> (s: String)
        ensures
            s@ == self.spec_message(),
    {
        match self {
            ShioajiWsError::NotConnected => String::from_str("WebSocket not connected"),
            ShioajiWsError::Send(m) => concat2("Send failed: ", m.as_str()),
            ShioajiWsError::Connection(m) => concat2("Connection failed: ", m.as_str()),
            ShioajiWsError::Json(m) => concat2("JSON error: ", m.as_str()),
        }
    }
}

} // verus!
