//! Gateway URL construction.

use vstd::prelude::*;

use crate::text::{concat2, concat3, seq_starts_with, strip_prefix};

verus! {

/// The HTTP API root of a gateway: its base URL with `/api` appended.
pub fn gateway_http_url(base_url: &str) -> (url: String)
    ensures
        url@ == base_url@ + "/api"@,
{
    concat2(base_url, "/api")
}

/// The WebSocket URL of a gateway with the given base URL.
pub open spec fn spec_gateway_ws_url(base_url: Seq<char>) -> Seq<char> {
    if seq_starts_with(base_url, "http://"@) {
        "ws://"@ + base_url.subrange(7, base_url.len() as int) + "/ws"@
    } else if seq_starts_with(base_url, "https://"@) {
        "wss://"@ + base_url.subrange(8, base_url.len() as int) + "/ws"@
    } else {
        base_url + "/ws"@
    }
}

/// The WebSocket URL of a gateway: an `http://` base becomes `ws://`, an
/// `https://` base becomes `wss://`, and `/ws` is appended.
pub fn gateway_ws_url(base_url: &str) -> (url: String)
    ensures
        url@ == spec_gateway_ws_url(base_url@),
{
    proof {
        reveal_strlit("http://");
        reveal_strlit("https://");
    }
    if let Some(host) = strip_prefix(base_url, "http://") {
        concat3("ws://", host, "/ws")
    } else if let Some(host) = strip_prefix(base_url, "https://") {
        concat3("wss://", host, "/ws")
    } else {
        concat2(base_url, "/ws")
    }
}

/// The HTTP and WebSocket URLs of a gateway at `http://HOST` or
/// `https://HOST` address the same host: the API under `/api`, the socket
/// under `/ws`, with the scheme kept secure or plain.
pub proof fn lemma_gateway_urls_share_host(host: Seq<char>)
    ensures
        spec_gateway_ws_url("http://"@ + host) == "ws://"@ + host + "/ws"@,
        spec_gateway_ws_url("https://"@ + host) == "wss://"@ + host + "/ws"@,
{
    reveal_strlit("http://");
    reveal_strlit("https://");
    let a = "http://"@ + host;
    let b = "https://"@ + host;
    assert(a.subrange(0, 7) =~= "http://"@);
    assert(a.subrange(7, a.len() as int) =~= host);
    assert(b.subrange(0, 8) =~= "https://"@);
    assert(b.subrange(8, b.len() as int) =~= host);
    assert(!seq_starts_with(b, "http://"@)) by {
        assert(b.subrange(0, 7)[4] != "http://"@[4]);
    }
}

} // verus!
