//! Addressing of the gateway's HTTP API.

use vstd::prelude::*;

use crate::shioaji::common::consts::SHIOAJI_GATEWAY_HTTP_URL;
use crate::shioaji::common::urls::gateway_http_url;
use crate::text::concat2;

verus! {

/// The HTTP side of the gateway client: where its requests go.
#[derive(Clone, Debug)]
pub struct ShioajiHttpClient {
    base_url: String,
}

impl ShioajiHttpClient {
    /// The API root the client sends to.
    pub closed spec fn spec_base_url(self) -> Seq<char> {
        self.base_url@
    }

    /// Creates a client for the gateway at `base_url` (default
    /// `http://localhost:8000`); requests go under its `/api` root.
    pub fn new(base_url: Option<String>) -> (c: ShioajiHttpClient)
        ensures
            c.spec_base_url() == (match base_url {
                Some(b) => b@,
                None => SHIOAJI_GATEWAY_HTTP_URL@,
            }) + "/api"@,
    {
        let raw = match base_url {
            Some(b) => b,
            None => String::from_str(SHIOAJI_GATEWAY_HTTP_URL),
        };
        ShioajiHttpClient { base_url: gateway_http_url(raw.as_str()) }
    }

    /// Returns the API root of the gateway.
    pub fn base_url(&self) -> (s: &str)
        ensures
            s@ == self.spec_base_url(),
    {
        self.base_url.as_str()
    }

    /// The URL of an endpoint: the API root followed by `path`.
    pub fn url_for(&self, path: &str) -> (u: String)
        ensures
            u@ == self.spec_base_url() + path@,
    {
        concat2(self.base_url.as_str(), path)
    }
}

} // verus!
