//! The configured transport handle every collection shares.

use vstd::prelude::*;
use vstd::string::StringExecFns;

verus! {

/// Immutable configuration for the host transport: the portal this client
/// speaks for, the API domain every path is resolved against, and the
/// bearer token the transport sends with each request.
///
/// The client is logically immutable after construction and holds no
/// per-request state, so one instance may serve any number of collections
/// concurrently.
#[derive(Clone, Debug)]
pub struct HubspotClient {
    pub portal_id: String,
    pub api_domain: String,
    pub token: String,
}

impl HubspotClient {
    /// A client for one portal, with the domain and token the transport
    /// should use.
    pub fn new(portal_id: String, api_domain: String, token: String) -> (r: Self)
        ensures
            r.portal_id@ == portal_id@,
            r.api_domain@ == api_domain@,
            r.token@ == token@,
    {
        HubspotClient { portal_id, api_domain, token }
    }

    /// The full URL for a request path: the API domain, a slash, the path.
    pub fn url_for(&self, path: &String) -> (r: String)
        ensures
            r@ == self.api_domain@ + "/"@ + path@,
    {
        self.api_domain.clone().concat("/").concat(path.as_str())
    }
}

} // verus!
