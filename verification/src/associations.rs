//! The association engine: generic cross-kind relationship operations,
//! independent of which two object kinds are involved.
//!
//! An association is an edge in a separate relation store on the remote
//! side, identified by source kind, source identifier, target kind, target
//! identifier and an association type; edges are created, listed and
//! removed independently of the records they connect. The set of valid
//! association types is open: standard category-level types are provided
//! as constants, custom ones are passed as opaque identifiers, and
//! validation of a type against a pair of kinds is delegated to the remote
//! system's response.

use vstd::prelude::*;
use vstd::string::StringExecFns;

use crate::api_configs::MAX_PAGE_SIZE;
use crate::status_class;
use crate::types::HubspotError;
use crate::types::Method;
use crate::types::Payload;
use crate::types::Request;
use crate::types::ToPath;

verus! {

/// Who defined an association type: the remote vendor, the account's
/// users, or an integrator.
#[derive(Clone, Copy, Debug, PartialEq, Eq, Structural)]
pub enum AssociationCategory {
    HubspotDefined,
    UserDefined,
    IntegratorDefined,
}

/// The category and numeric type of one association edge to create, as the
/// creation endpoint expects it.
#[derive(Clone, Copy, Debug, PartialEq, Eq, Structural)]
pub struct AssociationCreationDetails {
    pub category: AssociationCategory,
    pub type_id: u32,
}

/// The standard association types for common pairs of kinds, plus an open
/// escape hatch for custom types carried as opaque identifiers.
#[derive(Clone, Copy, Debug, PartialEq, Eq, Structural)]
pub enum AssociationTypes {
    ContactToCompany,
    CompanyToContact,
    DealToContact,
    ContactToDeal,
    TicketToContact,
    ContactToTicket,
    Custom(u32),
}

impl AssociationTypes {
    /// The numeric identifier the wire protocol uses for this type.
    pub open spec fn id_spec(self) -> u32 {
        match self {
            AssociationTypes::ContactToCompany => 279,
            AssociationTypes::CompanyToContact => 280,
            AssociationTypes::DealToContact => 3,
            AssociationTypes::ContactToDeal => 4,
            AssociationTypes::TicketToContact => 16,
            AssociationTypes::ContactToTicket => 15,
            AssociationTypes::Custom(id) => id,
        }
    }

    /// The numeric identifier the wire protocol uses for this type.
    pub fn type_id(&self) -> (r: u32)
        ensures
            r == self.id_spec(),
    {
        match self {
            AssociationTypes::ContactToCompany => 279,
            AssociationTypes::CompanyToContact => 280,
            AssociationTypes::DealToContact => 3,
            AssociationTypes::ContactToDeal => 4,
            AssociationTypes::TicketToContact => 16,
            AssociationTypes::ContactToTicket => 15,
            AssociationTypes::Custom(id) => *id,
        }
    }

    /// The creation payload for this type: standard types are
    /// vendor-defined, custom ones user-defined.
    pub fn creation_details(&self) -> (r: AssociationCreationDetails)
        ensures
            r.type_id == self.id_spec(),
            r.category == (if self is Custom {
                AssociationCategory::UserDefined
            } else {
                AssociationCategory::HubspotDefined
            }),
    {
        match self {
            AssociationTypes::Custom(id) => AssociationCreationDetails {
                category: AssociationCategory::UserDefined,
                type_id: *id,
            },
            standard => AssociationCreationDetails {
                category: AssociationCategory::HubspotDefined,
                type_id: standard.type_id(),
            },
        }
    }
}

/// One association edge, as the remote reports it: source and target are
/// given by their kinds' path segments and their identifiers.
#[derive(Clone, Debug)]
pub struct Association {
    pub source_type: String,
    pub source_id: String,
    pub target_type: String,
    pub target_id: String,
    pub type_id: u32,
}

/// The path that lists every edge from one instance to instances of one
/// target kind.
pub open spec fn association_list_path(
    source_seg: Seq<char>,
    source_id: Seq<char>,
    target_seg: Seq<char>,
) -> Seq<char> {
    "crm/v4/objects/"@ + source_seg + "/"@ + source_id + "/associations/"@ + target_seg
}

/// The path of one edge between two instances.
pub open spec fn association_edge_path(
    source_seg: Seq<char>,
    source_id: Seq<char>,
    target_seg: Seq<char>,
    target_id: Seq<char>,
) -> Seq<char> {
    association_list_path(source_seg, source_id, target_seg) + "/"@ + target_id
}

/// The list path, built over the two kind tags.
fn build_list_path<S: ToPath, T: ToPath>(
    source_type: &S,
    source_id: &String,
    target_type: &T,
) -> (r: String)
    ensures
        r@ == association_list_path(source_type.path_spec(), source_id@, target_type.path_spec()),
{
    String::from_str("crm/v4/objects/").concat(source_type.to_path().as_str()).concat(
        "/",
    ).concat(source_id.as_str()).concat("/associations/").concat(target_type.to_path().as_str())
}

/// The request that creates one typed edge from a source instance to a
/// target instance. Whether the association type is valid for that pair of
/// kinds is decided by the remote system; a refusal surfaces as
/// `RemoteRejected` when the response is interpreted.
pub fn associate_request<S: ToPath, T: ToPath>(
    source_type: &S,
    source_id: &String,
    target_type: &T,
    target_id: &String,
    details: AssociationCreationDetails,
) -> (r: Request)
    ensures
        r.method == Method::Put,
        r.path@ == association_edge_path(
            source_type.path_spec(),
            source_id@,
            target_type.path_spec(),
            target_id@,
        ),
        r.payload matches Payload::Association(d) && d == details,
        r.limit is None,
        r.after is None,
{
    let path = build_list_path(source_type, source_id, target_type).concat("/").concat(
        target_id.as_str(),
    );
    let mut r = Request::bare(Method::Put, path);
    r.payload = Payload::Association(details);
    r
}

/// The request for one page of the edges from a source instance to
/// instances of the target kind, paginated exactly as collection listing
/// is: a page size above [`MAX_PAGE_SIZE`] is refused locally.
pub fn list_associations_request<S: ToPath, T: ToPath>(
    source_type: &S,
    source_id: &String,
    target_type: &T,
    limit: u32,
    after: Option<String>,
) -> (r: Result<Request, HubspotError>)
    ensures
        limit <= MAX_PAGE_SIZE ==> (r matches Ok(req) && req.method == Method::Get && req.path@
            == association_list_path(
            source_type.path_spec(),
            source_id@,
            target_type.path_spec(),
        ) && req.limit == Some(limit) && req.after == after && req.payload is Empty),
        limit > MAX_PAGE_SIZE ==> r == Err::<Request, HubspotError>(HubspotError::InvalidArgument),
{
    if limit > MAX_PAGE_SIZE {
        return Err(HubspotError::InvalidArgument);
    }
    let mut r = Request::bare(Method::Get, build_list_path(source_type, source_id, target_type));
    r.limit = Some(limit);
    r.after = after;
    Ok(r)
}

/// The request that removes one edge between two instances.
pub fn remove_association_request<S: ToPath, T: ToPath>(
    source_type: &S,
    source_id: &String,
    target_type: &T,
    target_id: &String,
) -> (r: Request)
    ensures
        r.method == Method::Delete,
        r.path@ == association_edge_path(
            source_type.path_spec(),
            source_id@,
            target_type.path_spec(),
            target_id@,
        ),
        r.payload is Empty,
{
    let path = build_list_path(source_type, source_id, target_type).concat("/").concat(
        target_id.as_str(),
    );
    Request::bare(Method::Delete, path)
}

/// Interprets the response to an edge creation: the recorded edge on
/// success, the classified error otherwise; a success status without a
/// parsed edge is a malformed reply.
pub fn interpret_associate_response(status: u16, payload: Option<Association>) -> (r: Result<
    Association,
    HubspotError,
>)
    ensures
        match status_class(status) {
            Some(e) => r == Err::<Association, HubspotError>(e),
            None => match payload {
                Some(edge) => r == Ok::<Association, HubspotError>(edge),
                None => r == Err::<Association, HubspotError>(HubspotError::TransportError),
            },
        },
{
    match crate::classify_status(status) {
        Some(e) => Err(e),
        None => match payload {
            Some(edge) => Ok(edge),
            None => Err(HubspotError::TransportError),
        },
    }
}

/// Interprets the response to an association listing: on success, the page
/// of edges with the cursor of the next page; `next` is `None` exactly on
/// the final page.
pub fn interpret_association_list_response(
    status: u16,
    edges: Vec<Association>,
    next: Option<String>,
) -> (r: Result<(Vec<Association>, Option<String>), HubspotError>)
    ensures
        match status_class(status) {
            Some(e) => r == Err::<(Vec<Association>, Option<String>), HubspotError>(e),
            None => r matches Ok((page, cursor)) && page == edges && cursor == next,
        },
{
    match crate::classify_status(status) {
        Some(e) => Err(e),
        None => Ok((edges, next)),
    }
}

/// Interprets the response to an edge removal.
///
/// Removal is idempotent: removing a non-existent edge is not an error, so
/// the remote confirming non-existence (404) counts as success.
pub fn interpret_remove_association_response(status: u16) -> (r: Result<(), HubspotError>)
    ensures
        r is Ok <==> (status_class(status) is None || status == 404),
        r matches Err(e) ==> Some(e) == status_class(status),
{
    match crate::classify_status(status) {
        None => Ok(()),
        Some(HubspotError::NotFound) => Ok(()),
        Some(e) => Err(e),
    }
}

} // verus!
