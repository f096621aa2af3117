//! The generic collection engine: uniform CRUD, list and batch operations
//! for one object kind, expressed as request descriptions and response
//! interpretations.

use std::sync::Arc;

use vstd::prelude::*;
use vstd::string::StringExecFns;

use crate::client::HubspotClient;
use crate::status_class;
use crate::types::HubspotError;
use crate::types::Method;
use crate::types::Payload;
use crate::types::PropertyMap;
use crate::types::Record;
use crate::types::Request;
use crate::types::ToPath;

verus! {

/// The largest page size the remote list endpoints accept; a larger
/// request fails fast locally with `InvalidArgument` instead of being
/// silently truncated.
pub const MAX_PAGE_SIZE: u32 = 100;

/// The path of a whole collection: the versioned object root followed by
/// the kind's path segment.
pub open spec fn collection_path(seg: Seq<char>) -> Seq<char> {
    "crm/v3/objects/"@ + seg
}

/// The path of one instance of a collection.
pub open spec fn item_path(seg: Seq<char>, id: Seq<char>) -> Seq<char> {
    collection_path(seg) + "/"@ + id
}

/// The path of one batch endpoint (`create`, `update` or `archive`) of a
/// collection.
pub open spec fn batch_path(seg: Seq<char>, op: Seq<char>) -> Seq<char> {
    collection_path(seg) + "/batch/"@ + op
}

/// One generic collection: every operation is uniform across the object
/// kind it was built over, the only per-kind variance being the path
/// segment. Stateless between calls; the shared client handle is the only
/// field besides the kind tag.
#[derive(Clone, Debug)]
pub struct ApiCollection<T> {
    pub object_type: T,
    pub client: Arc<HubspotClient>,
}

impl<T: ToPath> ApiCollection<T> {
    /// A collection over one object kind, sharing the given client handle.
    pub fn new(object_type: T, client: Arc<HubspotClient>) -> (r: Self)
        ensures
            r.object_type == object_type,
            r.client == client,
    {
        ApiCollection { object_type, client }
    }

    /// The collection's own path.
    pub fn base_path(&self) -> (r: String)
        ensures
            r@ == collection_path(self.object_type.path_spec()),
    {
        String::from_str("crm/v3/objects/").concat(self.object_type.to_path().as_str())
    }

    /// The path of the instance with the given identifier.
    pub fn instance_path(&self, id: &String) -> (r: String)
        ensures
            r@ == item_path(self.object_type.path_spec(), id@),
    {
        self.base_path().concat("/").concat(id.as_str())
    }

    /// The request that creates one instance with the given properties;
    /// the remote system assigns the identifier.
    pub fn create_request(&self, properties: PropertyMap) -> (r: Request)
        ensures
            r.method == Method::Post,
            r.path@ == collection_path(self.object_type.path_spec()),
            r.payload matches Payload::Properties(p) && p == properties,
            r.props@ == Seq::<String>::empty(),
            r.limit is None,
            r.after is None,
    {
        let mut r = Request::bare(Method::Post, self.base_path());
        r.payload = Payload::Properties(properties);
        r
    }

    /// The request that fetches one instance by identifier, returning the
    /// named properties.
    pub fn get_request(&self, id: &String, properties_to_return: Vec<String>) -> (r: Request)
        ensures
            r.method == Method::Get,
            r.path@ == item_path(self.object_type.path_spec(), id@),
            r.props == properties_to_return,
            r.payload is Empty,
            r.limit is None,
            r.after is None,
    {
        let mut r = Request::bare(Method::Get, self.instance_path(id));
        r.props = properties_to_return;
        r
    }

    /// The request that partially updates one instance: only the supplied
    /// properties change.
    pub fn update_request(&self, id: &String, properties: PropertyMap) -> (r: Request)
        ensures
            r.method == Method::Patch,
            r.path@ == item_path(self.object_type.path_spec(), id@),
            r.payload matches Payload::Properties(p) && p == properties,
            r.props@ == Seq::<String>::empty(),
            r.limit is None,
            r.after is None,
    {
        let mut r = Request::bare(Method::Patch, self.instance_path(id));
        r.payload = Payload::Properties(properties);
        r
    }

    /// The request that deletes (archives) one instance by identifier.
    pub fn delete_request(&self, id: &String) -> (r: Request)
        ensures
            r.method == Method::Delete,
            r.path@ == item_path(self.object_type.path_spec(), id@),
            r.payload is Empty,
    {
        Request::bare(Method::Delete, self.instance_path(id))
    }

    /// The request for one page of the collection: up to `limit` records,
    /// starting after the opaque cursor `after` when one is given.
    ///
    /// A page size above [`MAX_PAGE_SIZE`] is refused locally with
    /// `InvalidArgument`; it is never silently truncated.
    pub fn list_request(&self, limit: u32, after: Option<String>) -> (r: Result<
        Request,
        HubspotError,
    >)
        ensures
            limit <= MAX_PAGE_SIZE ==> (r matches Ok(req) && req.method == Method::Get
                && req.path@ == collection_path(self.object_type.path_spec()) && req.limit
                == Some(limit) && req.after == after && req.payload is Empty),
            limit > MAX_PAGE_SIZE ==> r == Err::<Request, HubspotError>(
                HubspotError::InvalidArgument,
            ),
    {
        if limit > MAX_PAGE_SIZE {
            return Err(HubspotError::InvalidArgument);
        }
        let mut r = Request::bare(Method::Get, self.base_path());
        r.limit = Some(limit);
        r.after = after;
        Ok(r)
    }

    /// The request that creates many instances in one call; outcomes are
    /// reported per item (see [`interpret_batch_create_response`]).
    pub fn batch_create_request(&self, items: Vec<PropertyMap>) -> (r: Request)
        ensures
            r.method == Method::Post,
            r.path@ == batch_path(self.object_type.path_spec(), "create"@),
            r.payload matches Payload::PropertyList(l) && l == items,
    {
        let mut r = Request::bare(
            Method::Post,
            self.base_path().concat("/batch/").concat("create"),
        );
        r.payload = Payload::PropertyList(items);
        r
    }

    /// The request that updates many instances in one call; outcomes are
    /// reported per item.
    pub fn batch_update_request(&self, items: Vec<(String, PropertyMap)>) -> (r: Request)
        ensures
            r.method == Method::Post,
            r.path@ == batch_path(self.object_type.path_spec(), "update"@),
            r.payload matches Payload::Updates(l) && l == items,
    {
        let mut r = Request::bare(
            Method::Post,
            self.base_path().concat("/batch/").concat("update"),
        );
        r.payload = Payload::Updates(items);
        r
    }

    /// The request that archives many instances in one call; the remote
    /// endpoint treats the batch as one unit (see
    /// [`interpret_batch_archive_response`]).
    pub fn batch_archive_request(&self, ids: Vec<String>) -> (r: Request)
        ensures
            r.method == Method::Post,
            r.path@ == batch_path(self.object_type.path_spec(), "archive"@),
            r.payload matches Payload::Ids(l) && l == ids,
    {
        let mut r = Request::bare(
            Method::Post,
            self.base_path().concat("/batch/").concat("archive"),
        );
        r.payload = Payload::Ids(ids);
        r
    }
}

/// The outcome the remote reports for one item of a batch, as the
/// transport hands it back.
#[derive(Clone, Debug)]
pub enum BatchItemOutcome {
    /// The item was accepted; the created or updated record.
    Accepted(Record),
    /// The item was refused by server-side validation.
    Rejected,
}

/// What interpreting a single-record reply yields: the classified error on
/// an error status, the record on a success status that carries one, and
/// `TransportError` for a success status without one (a malformed reply).
pub open spec fn record_response_result(status: u16, payload: Option<Record>) -> Result<
    Record,
    HubspotError,
> {
    match status_class(status) {
        Some(e) => Err(e),
        None => match payload {
            Some(rec) => Ok(rec),
            None => Err(HubspotError::TransportError),
        },
    }
}

/// Interprets the response to a request that returns one record (create,
/// get, update): a success status with a parsed record yields the record,
/// a success status without one is a malformed reply and surfaces
/// `TransportError`, and an error status surfaces its classified error.
pub fn interpret_record_response(status: u16, payload: Option<Record>) -> (r: Result<
    Record,
    HubspotError,
>)
    ensures
        r == record_response_result(status, payload),
{
    match crate::classify_status(status) {
        Some(e) => Err(e),
        None => match payload {
            Some(rec) => Ok(rec),
            None => Err(HubspotError::TransportError),
        },
    }
}

/// Interprets the response to a delete.
///
/// Deletion is idempotent from the caller's perspective: the policy pinned
/// here treats the remote confirming non-existence (404) as success, so
/// deleting an already-deleted identifier succeeds.
pub fn interpret_delete_response(status: u16) -> (r: Result<(), HubspotError>)
    ensures
        r is Ok <==> (status_class(status) is None || status == 404),
        r matches Err(e) ==> Some(e) == status_class(status),
{
    match crate::classify_status(status) {
        None => Ok(()),
        Some(HubspotError::NotFound) => Ok(()),
        Some(e) => Err(e),
    }
}

/// Interprets the response to a list request: on success, the page of
/// records together with the cursor for the next page; `next` is `None`
/// exactly when the final page was returned.
pub fn interpret_list_response(status: u16, records: Vec<Record>, next: Option<String>) -> (r:
    Result<(Vec<Record>, Option<String>), HubspotError>)
    ensures
        match status_class(status) {
            Some(e) => r == Err::<(Vec<Record>, Option<String>), HubspotError>(e),
            None => r matches Ok((page, cursor)) && page == records && cursor == next,
        },
{
    match crate::classify_status(status) {
        Some(e) => Err(e),
        None => Ok((records, next)),
    }
}

/// The per-item result an accepted or rejected batch item stands for.
pub open spec fn batch_item_result(o: BatchItemOutcome) -> Result<Record, HubspotError> {
    match o {
        BatchItemOutcome::Accepted(rec) => Ok(rec),
        BatchItemOutcome::Rejected => Err(HubspotError::RemoteRejected),
    }
}

/// Interprets the response to a batch create or batch update: a same-length
/// ordered sequence of per-item results.
///
/// Partial failure is isolated: item `i` of the result is `Ok` exactly when
/// the remote accepted item `i`, and `Err(RemoteRejected)` exactly when it
/// refused it; one item's failure never disturbs its siblings. A reply
/// whose item count differs from the submitted count is malformed and
/// surfaces `TransportError` for the whole call, as does an error status.
pub fn interpret_batch_create_response(
    submitted: usize,
    status: u16,
    outcomes: Vec<BatchItemOutcome>,
) -> (r: Result<Vec<Result<Record, HubspotError>>, HubspotError>)
    ensures
        match status_class(status) {
            Some(e) => r == Err::<Vec<Result<Record, HubspotError>>, HubspotError>(e),
            None => if outcomes@.len() != submitted {
                r == Err::<Vec<Result<Record, HubspotError>>, HubspotError>(
                    HubspotError::TransportError,
                )
            } else {
                r matches Ok(results) && results@.len() == submitted && (forall|i: int|
                    0 <= i < submitted ==> results@[i] == batch_item_result(outcomes@[i]))
            },
        },
{
    match crate::classify_status(status) {
        Some(e) => Err(e),
        None => {
            if outcomes.len() != submitted {
                return Err(HubspotError::TransportError);
            }
            let ghost all = outcomes@;
            let mut rest = outcomes;
            let mut results: Vec<Result<Record, HubspotError>> = Vec::new();
            while rest.len() > 0
                invariant
                    results@.len() + rest@.len() == all.len(),
                    rest@ == all.subrange(results@.len() as int, all.len() as int),
                    forall|j: int|
                        0 <= j < results@.len() ==> results@[j] == batch_item_result(all[j]),
                decreases rest@.len(),
            {
                proof {
                    assert(rest@[0] == all[results@.len() as int]);
                }
                let outcome = rest.remove(0);
                match outcome {
                    BatchItemOutcome::Accepted(rec) => results.push(Ok(rec)),
                    BatchItemOutcome::Rejected => results.push(Err(HubspotError::RemoteRejected)),
                }
                proof {
                    assert(rest@ =~= all.subrange(results@.len() as int, all.len() as int));
                }
            }
            Ok(results)
        },
    }
}

/// Law: in a batch whose interpreted outcome reports item `k` refused and
/// every other item accepted, the per-item results hold an error exactly
/// at `k` and a created record everywhere else — one item's failure never
/// disturbs its siblings. The premises are what
/// [`interpret_batch_create_response`] ensures of a conformant reply.
pub proof fn lemma_batch_partial_failure_isolated(
    outcomes: Seq<BatchItemOutcome>,
    results: Seq<Result<Record, HubspotError>>,
    k: int,
)
    requires
        0 <= k < outcomes.len(),
        outcomes[k] is Rejected,
        forall|i: int| 0 <= i < outcomes.len() && i != k ==> outcomes[i] is Accepted,
        results.len() == outcomes.len(),
        forall|i: int| 0 <= i < outcomes.len() ==> results[i] == batch_item_result(outcomes[i]),
    ensures
        results[k] == Err::<Record, HubspotError>(HubspotError::RemoteRejected),
        forall|i: int| 0 <= i < results.len() && i != k ==> results[i] is Ok,
{
    assert forall|i: int| 0 <= i < results.len() && i != k implies results[i] is Ok by {
        assert(outcomes[i] is Accepted);
    }
}

/// Interprets the response to a batch archive.
///
/// The archive endpoint is all-or-nothing: the policy pinned here reports
/// one outcome for the whole batch, success exactly on a success status.
pub fn interpret_batch_archive_response(status: u16) -> (r: Result<(), HubspotError>)
    ensures
        match status_class(status) {
            Some(e) => r == Err::<(), HubspotError>(e),
            None => r is Ok,
        },
{
    match crate::classify_status(status) {
        Some(e) => Err(e),
        None => Ok(()),
    }
}

} // verus!
