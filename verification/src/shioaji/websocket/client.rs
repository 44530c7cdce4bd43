//! The decisions of the gateway WebSocket client.

use vstd::prelude::*;

use crate::shioaji::common::consts::SHIOAJI_GATEWAY_WS_URL;
use crate::shioaji::websocket::error::ShioajiWsError;
use crate::shioaji::websocket::handler::WsCommand;

verus! {

/// The WebSocket URL the client connects to: the one given, else the
/// default gateway address.
pub fn resolve_ws_url(url: Option<String>) -> (u: String)
    ensures
        u@ == (match url {
            Some(x) => x@,
            None => SHIOAJI_GATEWAY_WS_URL@,
        }),
{
    match url {
        Some(x) => x,
        None => String::from_str(SHIOAJI_GATEWAY_WS_URL),
    }
}

/// The command that a subscription request sends to the background task;
/// without a connection (no command channel) the request fails.
pub fn subscribe_command(connected: bool, code: &str, quote_type: &str) -> (r: Result<WsCommand, ShioajiWsError>)
    ensures
        !connected ==> r == Err::<WsCommand, ShioajiWsError>(ShioajiWsError::NotConnected),
        connected ==> (r matches Ok(WsCommand::Subscribe { code: c, quote_type: q }) && c@ == code@ && q@ == quote_type@),
{
    if !connected {
        return Err(ShioajiWsError::NotConnected);
    }
    Ok(WsCommand::Subscribe { code: String::from_str(code), quote_type: String::from_str(quote_type) })
}

/// The command that an unsubscription request sends to the background task;
/// without a connection (no command channel) the request fails.
pub fn unsubscribe_command(connected: bool, code: &str, quote_type: &str) -> (r: Result<WsCommand, ShioajiWsError>)
    ensures
        !connected ==> r == Err::<WsCommand, ShioajiWsError>(ShioajiWsError::NotConnected),
        connected ==> (r matches Ok(WsCommand::Unsubscribe { code: c, quote_type: q }) && c@ == code@ && q@ == quote_type@),
{
    if !connected {
        return Err(ShioajiWsError::NotConnected);
    }
    Ok(WsCommand::Unsubscribe { code: String::from_str(code), quote_type: String::from_str(quote_type) })
}

} // verus!
