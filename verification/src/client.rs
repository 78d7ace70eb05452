//! The daemon client's connection record: where to reach the RPC endpoint
//! and which credentials to present. The HTTP transport itself lives in
//! the surrounding application.
use vstd::prelude::*;

verus! {

/// Credentials for the daemon's HTTP basic authentication.
#[derive(Debug, Clone)]
pub struct BasicAuth {
    pub user: String,
    pub password: String,
}

/// A handle on the daemon's RPC endpoint.
#[derive(Debug, Clone)]
pub struct TransClient {
    pub url: String,
    pub auth: Option<BasicAuth>,
}

impl TransClient {
    /// A client for the given endpoint with the given credentials.
    pub fn with_auth(url: &str, basic_auth: BasicAuth) -> (c: TransClient)
        ensures
            c.url@ == url@,
            c.auth matches Some(a) && a == basic_auth,
    {
        TransClient { url: url.to_owned(), auth: Some(basic_auth) }
    }
}

} // verus!
