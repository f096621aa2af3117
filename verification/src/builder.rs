//! Step-by-step assembly of the facade from credentials.

use vstd::prelude::*;
use vstd::string::StringExecFns;

use crate::client::HubspotClient;
use crate::types::HubspotError;
use crate::Hubspot;

verus! {

/// Collects the portal identifier, API domain and bearer token before the
/// facade is built. The domain is optional and defaults to the public API
/// domain; the portal identifier and token must be supplied.
#[derive(Clone, Debug)]
pub struct HubspotBuilder {
    pub portal_id: Option<String>,
    pub api_domain: Option<String>,
    pub token: Option<String>,
}

impl HubspotBuilder {
    /// A builder with nothing supplied yet.
    pub fn new() -> (r: Self)
        ensures
            r.portal_id is None,
            r.api_domain is None,
            r.token is None,
    {
        HubspotBuilder { portal_id: None, api_domain: None, token: None }
    }

    /// Supplies the portal identifier.
    pub fn portal_id(self, portal_id: String) -> (r: Self)
        ensures
            r.portal_id == Some(portal_id),
            r.api_domain == self.api_domain,
            r.token == self.token,
    {
        HubspotBuilder { portal_id: Some(portal_id), ..self }
    }

    /// Supplies the API domain; without this call the public API domain is
    /// used.
    pub fn api_domain(self, api_domain: String) -> (r: Self)
        ensures
            r.api_domain == Some(api_domain),
            r.portal_id == self.portal_id,
            r.token == self.token,
    {
        HubspotBuilder { api_domain: Some(api_domain), ..self }
    }

    /// Supplies the bearer token.
    pub fn token(self, token: String) -> (r: Self)
        ensures
            r.token == Some(token),
            r.portal_id == self.portal_id,
            r.api_domain == self.api_domain,
    {
        HubspotBuilder { token: Some(token), ..self }
    }

    /// Builds the facade: succeeds exactly when the portal identifier and
    /// the token were supplied, and fails with `InvalidArgument` otherwise.
    pub fn build(self) -> (r: Result<Hubspot, HubspotError>)
        ensures
            r is Ok <==> (self.portal_id is Some && self.token is Some),
            r matches Ok(h) ==> {
                &&& h.portal_id@ == self.portal_id->0@
                &&& h.wf()
                &&& h.owners.client.token@ == self.token->0@
                &&& h.owners.client.api_domain@ == (match self.api_domain {
                    Some(domain) => domain@,
                    None => "https://api.hubapi.com"@,
                })
            },
            r matches Err(e) ==> e == HubspotError::InvalidArgument,
    {
        match (self.portal_id, self.token) {
            (Some(portal_id), Some(token)) => {
                let api_domain = match self.api_domain {
                    Some(domain) => domain,
                    None => String::from_str("https://api.hubapi.com"),
                };
                Ok(Hubspot::new(HubspotClient::new(portal_id, api_domain, token)))
            },
            _ => Err(HubspotError::InvalidArgument),
        }
    }
}

} // verus!
