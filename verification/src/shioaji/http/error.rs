//! Errors of the gateway HTTP client.

use vstd::prelude::*;

use crate::text::{concat2, decimal, push_decimal};

verus! {

/// Errors of the gateway HTTP client.
#[derive(Debug, Clone, PartialEq, Eq)]
pub enum ShioajiHttpError {
    NetworkError(String),
    JsonError(String),
    GatewayError { status: u16, body: String },
    NotConnected,
}

impl ShioajiHttpError {
    /// The text that describes the error.
    pub open spec fn spec_message(self) -> Seq<char> {
        match self {
            ShioajiHttpError::NetworkError(m) => "HTTP request failed: "@ + m@,
            ShioajiHttpError::JsonError(m) => "JSON deserialization failed: "@ + m@,
            ShioajiHttpError::GatewayError { status, body } => "Gateway error ("@ + decimal(
                status as nat,
            ) + "): "@ + body@,
            ShioajiHttpError::NotConnected => "Gateway not connected"@,
        }
    }

    /// The text that describes the error, e.g. `Gateway error (404): missing`.
    pub fn message(&self) -> (s: String)
        ensures
            s@ == self.spec_message(),
    {
        match self {
            ShioajiHttpError::NetworkError(m) => concat2("HTTP request failed: ", m.as_str()),
            ShioajiHttpError::JsonError(m) => concat2("JSON deserialization failed: ", m.as_str()),
            ShioajiHttpError::GatewayError { status, body } => {
                let mut s = String::from_str("Gateway error (");
                push_decimal(&mut s, *status as u64);
                s.append("): ");
                s.append(body.as_str());
                s
            },
            ShioajiHttpError::NotConnected => String::from_str("Gateway not connected"),
        }
    }
}

/// Checks the status of a gateway response: a status of 400 or above is a
/// gateway error that carries the status and the response body.
pub fn check_gateway_status(status: u16, body: String) -> (r: Result<(), ShioajiHttpError>)
    ensures
        r is Ok <==> status < 400,
        r matches Err(e) ==> e == (ShioajiHttpError::GatewayError { status, body }),
{
    if status >= 400 {
        Err(ShioajiHttpError::GatewayError { status, body })
    } else {
        Ok(())
    }
}

} // verus!
