//! The semantics the library relies on of the remote record and relation
//! store, as a mathematical model, and the laws that hold of it.
//!
//! Every operation of the library is one request/response unit: the
//! executable code builds the request and interprets the reply, and its
//! contracts pin both down exactly. What the remote side does with a
//! conformant request is not executable here; it is stated once, as the
//! effect functions of [`RemoteStore`], and the laws below are proved of
//! those effects. Records are kept by key, association edges as a set:
//! edges live in a relation store of their own and are not owned by either
//! record they connect.

use vstd::prelude::*;

use crate::api_configs::record_response_result;
use crate::associations::Association;
use crate::types::HubspotError;
use crate::types::PropValueV;
use crate::types::Record;

verus! {

/// The key of one record on the remote side: the path segment of its kind
/// and its identifier.
pub struct RecordKey {
    pub kind: Seq<char>,
    pub id: Seq<char>,
}

/// One association edge of the remote relation store.
pub struct Edge {
    pub source_kind: Seq<char>,
    pub source_id: Seq<char>,
    pub target_kind: Seq<char>,
    pub target_id: Seq<char>,
    pub type_id: u32,
}

/// The remote store: the property map of every live record, and every
/// association edge.
pub struct RemoteStore {
    pub records: Map<RecordKey, Map<Seq<char>, PropValueV>>,
    pub edges: Set<Edge>,
}

impl RemoteStore {
    /// The store after a creation stored `stored` under `key`.
    pub open spec fn create(self, key: RecordKey, stored: Map<Seq<char>, PropValueV>) -> RemoteStore {
        RemoteStore { records: self.records.insert(key, stored), edges: self.edges }
    }

    /// What a fetch of `key` finds: the record's properties, or nothing.
    pub open spec fn get(self, key: RecordKey) -> Option<Map<Seq<char>, PropValueV>> {
        if self.records.contains_key(key) {
            Some(self.records[key])
        } else {
            None
        }
    }

    /// The store after a partial update of `key`: only the supplied
    /// properties change.
    pub open spec fn update(self, key: RecordKey, changes: Map<Seq<char>, PropValueV>) -> RemoteStore {
        if self.records.contains_key(key) {
            self.create(key, self.records[key].union_prefer_right(changes))
        } else {
            self
        }
    }

    /// The store after `key` was deleted.
    pub open spec fn delete(self, key: RecordKey) -> RemoteStore {
        RemoteStore { records: self.records.remove(key), edges: self.edges }
    }

    /// The store after the edge `e` was created.
    pub open spec fn associate(self, e: Edge) -> RemoteStore {
        RemoteStore { records: self.records, edges: self.edges.insert(e) }
    }

    /// The store after the edge `e` was removed.
    pub open spec fn remove_association(self, e: Edge) -> RemoteStore {
        RemoteStore { records: self.records, edges: self.edges.remove(e) }
    }

    /// Every edge from one instance to instances of one target kind: what
    /// an association listing yields.
    pub open spec fn associations_from(
        self,
        source_kind: Seq<char>,
        source_id: Seq<char>,
        target_kind: Seq<char>,
    ) -> Set<Edge> {
        self.edges.filter(
            |e: Edge|
                e.source_kind == source_kind && e.source_id == source_id && e.target_kind
                    == target_kind,
        )
    }
}

/// Law: a record fetched right after its creation carries exactly the
/// submitted property values. The remote may add system-assigned
/// properties (`extra`), but what it stores agrees with the submission on
/// every submitted name, so the fetched map is a superset containing
/// exactly the submitted values.
pub proof fn lemma_create_then_get(
    s: RemoteStore,
    key: RecordKey,
    submitted: Map<Seq<char>, PropValueV>,
    extra: Map<Seq<char>, PropValueV>,
)
    ensures
        ({
            let fetched = s.create(key, extra.union_prefer_right(submitted)).get(key);
            &&& fetched is Some
            &&& submitted.dom().subset_of(fetched->0.dom())
            &&& forall|n: Seq<char>|
                submitted.contains_key(n) ==> fetched->0.contains_key(n) && fetched->0[n]
                    == submitted[n]
        }),
{
}

/// Law: a partial update leaves every property it did not mention
/// unchanged, and every mentioned property carries the supplied value
/// afterwards.
pub proof fn lemma_update_is_partial(
    s: RemoteStore,
    key: RecordKey,
    changes: Map<Seq<char>, PropValueV>,
)
    requires
        s.get(key) is Some,
    ensures
        ({
            let before = s.get(key)->0;
            let after = s.update(key, changes).get(key);
            &&& after is Some
            &&& forall|n: Seq<char>|
                changes.contains_key(n) ==> after->0.contains_key(n) && after->0[n] == changes[n]
            &&& forall|n: Seq<char>|
                before.contains_key(n) && !changes.contains_key(n) ==> after->0.contains_key(n)
                    && after->0[n] == before[n]
        }),
{
}

/// Law: deleting an identifier and then fetching it yields no record, and
/// deleting it again changes nothing — the deleted state is terminal and
/// deletion is idempotent.
pub proof fn lemma_delete_then_get(s: RemoteStore, key: RecordKey)
    ensures
        s.delete(key).get(key) is None,
        s.delete(key).delete(key) == s.delete(key),
{
    assert(s.records.remove(key).remove(key) =~= s.records.remove(key));
}

/// Law: after an edge is created, the listing from its source to its
/// target's kind includes it; after it is removed, the same listing
/// excludes it; and neither touches any record.
pub proof fn lemma_associate_then_list(s: RemoteStore, e: Edge)
    ensures
        s.associate(e).associations_from(e.source_kind, e.source_id, e.target_kind).contains(e),
        !s.remove_association(e).associations_from(
            e.source_kind,
            e.source_id,
            e.target_kind,
        ).contains(e),
        s.associate(e).records == s.records,
        s.remove_association(e).records == s.records,
{
}

/// Whether a reply is a conformant answer of store `s` to a fetch of
/// `key`: a live record comes back under its identifier with its stored
/// properties and status 200, an absent one as status 404 with no body.
pub open spec fn conformant_get_reply(
    s: RemoteStore,
    key: RecordKey,
    status: u16,
    payload: Option<Record>,
) -> bool {
    match s.get(key) {
        Some(props) => status == 200 && (payload matches Some(rec) && rec.id@ == key.id
            && rec.properties@ == props),
        None => status == 404 && payload is None,
    }
}

/// Law, through the client's own decoding: a fetch right after a creation
/// yields the created record — any conformant reply interprets to a record
/// carrying the key's identifier and exactly the submitted property
/// values.
pub proof fn lemma_create_then_get_decodes(
    s: RemoteStore,
    key: RecordKey,
    submitted: Map<Seq<char>, PropValueV>,
    extra: Map<Seq<char>, PropValueV>,
    status: u16,
    payload: Option<Record>,
)
    requires
        conformant_get_reply(s.create(key, extra.union_prefer_right(submitted)), key, status, payload),
    ensures
        ({
            let r = record_response_result(status, payload);
            &&& r is Ok
            &&& r->Ok_0.id@ == key.id
            &&& forall|n: Seq<char>|
                submitted.contains_key(n) ==> r->Ok_0.properties@.contains_key(n)
                    && r->Ok_0.properties@[n] == submitted[n]
        }),
{
}

/// Law, through the client's own decoding: a fetch right after a delete of
/// the same identifier interprets to `NotFound`, however often the delete
/// is repeated.
pub proof fn lemma_delete_then_get_decodes(
    s: RemoteStore,
    key: RecordKey,
    status: u16,
    payload: Option<Record>,
)
    requires
        conformant_get_reply(s.delete(key), key, status, payload),
    ensures
        record_response_result(status, payload) == Err::<Record, HubspotError>(
            HubspotError::NotFound,
        ),
{
}

/// The edge an association entry of a reply stands for.
pub open spec fn edge_of(a: Association) -> Edge {
    Edge {
        source_kind: a.source_type@,
        source_id: a.source_id@,
        target_kind: a.target_type@,
        target_id: a.target_id@,
        type_id: a.type_id,
    }
}

/// Whether a one-page listing reply is a conformant answer of store `s`
/// for the edges from one instance to instances of one target kind: the
/// page carries exactly those edges.
pub open spec fn conformant_association_page(
    s: RemoteStore,
    source_kind: Seq<char>,
    source_id: Seq<char>,
    target_kind: Seq<char>,
    status: u16,
    page: Seq<Association>,
) -> bool {
    status == 200 && page.map_values(|a: Association| edge_of(a)).to_set() == s.associations_from(
        source_kind,
        source_id,
        target_kind,
    )
}

/// Law, through the client's own listing: after an edge is created, a
/// conformant listing from its source to its target's kind includes an
/// entry standing for it.
pub proof fn lemma_associate_then_list_includes(
    s: RemoteStore,
    e: Edge,
    status: u16,
    page: Seq<Association>,
)
    requires
        conformant_association_page(
            s.associate(e),
            e.source_kind,
            e.source_id,
            e.target_kind,
            status,
            page,
        ),
    ensures
        exists|i: int| 0 <= i < page.len() && #[trigger] edge_of(page[i]) == e,
{
    let views = page.map_values(|a: Association| edge_of(a));
    assert(s.associate(e).associations_from(e.source_kind, e.source_id, e.target_kind).contains(e));
    assert(views.to_set().contains(e));
    assert(views.contains(e));
    let i = choose|i: int| 0 <= i < views.len() && views[i] == e;
    assert(edge_of(page[i]) == e);
}

/// Law, through the client's own listing: after an edge is removed, a
/// conformant listing from its source to its target's kind has no entry
/// standing for it.
pub proof fn lemma_remove_then_list_excludes(
    s: RemoteStore,
    e: Edge,
    status: u16,
    page: Seq<Association>,
)
    requires
        conformant_association_page(
            s.remove_association(e),
            e.source_kind,
            e.source_id,
            e.target_kind,
            status,
            page,
        ),
    ensures
        forall|i: int| 0 <= i < page.len() ==> #[trigger] edge_of(page[i]) != e,
{
    let views = page.map_values(|a: Association| edge_of(a));
    assert(!s.remove_association(e).associations_from(
        e.source_kind,
        e.source_id,
        e.target_kind,
    ).contains(e));
    assert forall|i: int| 0 <= i < page.len() implies #[trigger] edge_of(page[i]) != e by {
        assert(views[i] == edge_of(page[i]));
        if edge_of(page[i]) == e {
            assert(views.contains(e));
            assert(views.to_set().contains(e));
        }
    }
}

/// One page of a listing over a snapshot of identifiers: the identifiers
/// from `start`, at most `page_size` of them, and the cursor of the next
/// page — `None` exactly when the final page was returned.
pub open spec fn page_of(ids: Seq<Seq<char>>, page_size: int, start: int) -> (Seq<Seq<char>>, Option<
    int,
>) {
    if start + page_size < ids.len() {
        (ids.subrange(start, start + page_size), Some(start + page_size))
    } else {
        (ids.subrange(start, ids.len() as int), None)
    }
}

/// Every identifier a listing yields when the caller follows the cursor
/// from `start` until it is `None`.
pub open spec fn pages_from(ids: Seq<Seq<char>>, page_size: int, start: int) -> Seq<Seq<char>>
    decreases ids.len() - start,
    when 0 <= start <= ids.len() && 0 < page_size
{
    match page_of(ids, page_size, start).1 {
        None => page_of(ids, page_size, start).0,
        Some(next) => page_of(ids, page_size, start).0 + pages_from(ids, page_size, next),
    }
}

/// Following the cursor from `start` yields exactly the identifiers from
/// `start` on, in order.
pub proof fn lemma_pages_from_covers(ids: Seq<Seq<char>>, page_size: int, start: int)
    requires
        0 < page_size,
        0 <= start <= ids.len(),
    ensures
        pages_from(ids, page_size, start) == ids.subrange(start, ids.len() as int),
    decreases ids.len() - start,
{
    match page_of(ids, page_size, start).1 {
        None => {},
        Some(next) => {
            lemma_pages_from_covers(ids, page_size, next);
            assert(ids.subrange(start, next) + ids.subrange(next, ids.len() as int) =~= ids.subrange(
                start,
                ids.len() as int,
            ));
        },
    }
}

/// Law: a listing followed across repeated calls, page size `page_size`,
/// yields every identifier of the snapshot exactly once, in order — so no
/// duplicates when the snapshot has none — and terminates, each page
/// advancing the cursor until it is `None`.
pub proof fn lemma_pagination_exact(ids: Seq<Seq<char>>, page_size: int)
    requires
        0 < page_size,
    ensures
        pages_from(ids, page_size, 0) == ids,
        ids.no_duplicates() ==> pages_from(ids, page_size, 0).no_duplicates(),
{
    lemma_pages_from_covers(ids, page_size, 0);
    assert(ids.subrange(0, ids.len() as int) =~= ids);
}

} // verus!
