//! Owners are specific users assigned to contacts, companies, deals,
//! tickets, or engagements.

use std::sync::Arc;

use vstd::prelude::*;
use vstd::string::StringExecFns;

use crate::api_configs::MAX_PAGE_SIZE;
use crate::client::HubspotClient;
use crate::types::HubspotError;
use crate::types::Method;
use crate::types::Request;

verus! {

/// The path under which owners are served.
pub open spec fn owners_path() -> Seq<char> {
    "crm/v3/owners"@
}

/// The path of one owner.
pub open spec fn owner_path(id: Seq<char>) -> Seq<char> {
    owners_path() + "/"@ + id
}

/// Read-only access to the account's owners, over the shared client
/// handle. Owners are managed in the remote account itself, so the API
/// only fetches and lists them.
#[derive(Clone, Debug)]
pub struct OwnerApi {
    pub client: Arc<HubspotClient>,
}

impl OwnerApi {
    /// An owner API over the shared client handle.
    pub fn new(client: Arc<HubspotClient>) -> (r: Self)
        ensures
            r.client == client,
    {
        OwnerApi { client }
    }

    /// The request that fetches one owner by identifier.
    pub fn get_request(&self, id: &String) -> (r: Request)
        ensures
            r.method == Method::Get,
            r.path@ == owner_path(id@),
            r.payload is Empty,
    {
        Request::bare(Method::Get, String::from_str("crm/v3/owners").concat("/").concat(id.as_str()))
    }

    /// The request for one page of the account's owners; a page size above
    /// [`MAX_PAGE_SIZE`] is refused locally.
    pub fn list_request(&self, limit: u32, after: Option<String>) -> (r: Result<
        Request,
        HubspotError,
    >)
        ensures
            limit <= MAX_PAGE_SIZE ==> (r matches Ok(req) && req.method == Method::Get && req.path@
                == owners_path() && req.limit == Some(limit) && req.after == after
                && req.payload is Empty),
            limit > MAX_PAGE_SIZE ==> r == Err::<Request, HubspotError>(
                HubspotError::InvalidArgument,
            ),
    {
        if limit > MAX_PAGE_SIZE {
            return Err(HubspotError::InvalidArgument);
        }
        let mut r = Request::bare(Method::Get, String::from_str("crm/v3/owners"));
        r.limit = Some(limit);
        r.after = after;
        Ok(r)
    }
}

} // verus!
