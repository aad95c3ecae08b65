//! The API client: the configured credentials and base URL, and the
//! address of one rendered request. Carrying a request over the network
//! is the transport's work; the decisions around it live in `dispatch`.

use vstd::prelude::*;

pub mod dispatch;
pub mod error;

verus! {

use crate::client::error::ClientError;

/// A configured client: where the API lives and the robot account that
/// signs every request. The values never change once the client exists.
pub struct HarborClient {
    /// The scheme and host the API is served on.
    pub base_url: String,
    /// The account name for basic authentication.
    pub username: String,
    /// The account secret for basic authentication.
    pub password: String,
}

impl HarborClient {
    /// A client over the given base URL and credentials.
    pub fn new(base_url: String, username: String, password: String) -> (r: Result<
        HarborClient,
        ClientError,
    >)
        ensures
            r matches Ok(c) && c == (HarborClient { base_url, username, password }),
    {
        Ok(HarborClient { base_url, username, password })
    }

    /// The full URL of one rendered request: the base URL, the API
    /// prefix, and the request's own path and query.
    pub fn api_url(&self, request_url: &str) -> (r: String)
        ensures
            r@ == self.base_url@ + "/api/v2.0/"@ + request_url@,
    {
        let mut out = self.base_url.clone();
        out.append("/api/v2.0/");
        out.append(request_url);
        out
    }
}

} // verus!
