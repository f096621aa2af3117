//! A typed client library for the HubSpot CRM object model.
//!
//! The crate exposes strongly-typed collections (contacts, companies,
//! deals, line items, tickets, notes, engagements, owners) that share one
//! configured client handle, plus a generic mechanism for creating typed
//! relationships ("associations") between any two object instances.
//!
//! The library itself performs no I/O: every operation is expressed as a
//! request description for a host transport to execute, and an
//! interpretation of the structured response the transport hands back.
//! What each operation sends and how each reply is read is stated in the
//! operations' contracts; the semantics the remote relation and record
//! store is relied on for are spelled out in [`model`].

use std::sync::Arc;

use vstd::prelude::*;

pub mod api_configs;
pub mod associations;
mod builder;
pub mod client;
pub mod engagements;
pub mod model;
pub mod objects;
mod owners;
pub mod types;

pub use builder::HubspotBuilder;
pub use engagements::EngagementType;
pub use objects::ObjectType;
pub use owners::OwnerApi;
pub use types::HubspotError;

verus! {

/// Classifies an HTTP status code into the library's error taxonomy.
///
/// `None` means success (a 2xx status); `404` is a missing identifier;
/// any other 4xx means the remote refused the request; everything else
/// (5xx, or a status outside the HTTP range) is a transport-level failure.
pub open spec fn status_class(status: u16) -> Option<HubspotError> {
    if 200 <= status && status < 300 {
        None
    } else if status == 404 {
        Some(HubspotError::NotFound)
    } else if 400 <= status && status < 500 {
        Some(HubspotError::RemoteRejected)
    } else {
        Some(HubspotError::TransportError)
    }
}

/// Maps an HTTP status code to the error it stands for, or `None` on
/// success.
pub fn classify_status(status: u16) -> (r: Option<HubspotError>)
    ensures
        r == status_class(status),
{
    if 200 <= status && status < 300 {
        None
    } else if status == 404 {
        Some(HubspotError::NotFound)
    } else if 400 <= status && status < 500 {
        Some(HubspotError::RemoteRejected)
    } else {
        Some(HubspotError::TransportError)
    }
}

/// The top-level facade: one manager per domain, all sharing one client
/// handle.
#[derive(Clone, Debug)]
pub struct Hubspot {
    pub portal_id: String,
    /// Objects represent types of relationships or processes.
    pub objects: objects::ObjectsManager,
    /// Engagements store data from interactions with records.
    pub engagements: engagements::EngagementsManager,
    /// Owners are specific users assigned to contacts, companies, deals,
    /// tickets, or engagements.
    pub owners: OwnerApi,
}

impl Hubspot {
    /// Whether every collection of every manager carries the kind its
    /// field names, and all share one client handle whose portal the
    /// facade reports.
    pub open spec fn wf(self) -> bool {
        &&& self.objects.wf(*self.owners.client)
        &&& self.engagements.wf(*self.owners.client)
        &&& self.owners.client.portal_id@ == self.portal_id@
    }

    /// Assembles the facade over one shared client handle.
    pub fn new(client: client::HubspotClient) -> (r: Self)
        ensures
            r.portal_id@ == client.portal_id@,
            r.wf(),
            *r.owners.client == client,
    {
        let portal_id = client.portal_id.clone();
        let client = Arc::new(client);

        Self {
            portal_id,
            objects: objects::ObjectsManager::new(Arc::clone(&client)),
            engagements: engagements::EngagementsManager::new(Arc::clone(&client)),
            owners: OwnerApi::new(Arc::clone(&client)),
        }
    }

    /// Starts assembling a facade from credentials.
    pub fn builder() -> (r: HubspotBuilder)
        ensures
            r.portal_id is None,
            r.api_domain is None,
            r.token is None,
    {
        HubspotBuilder::new()
    }
}

} // verus!
