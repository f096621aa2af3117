//! Core data types shared by every collection: property values, property
//! maps, records, request descriptions, and the error taxonomy.

use vstd::prelude::*;

verus! {

/// The errors a core operation can surface.
///
/// - `NotFound`: the identifier is absent on the remote system.
/// - `RemoteRejected`: the request reached the API but was refused
///   (validation, permission, invalid association type).
/// - `TransportError`: network, timeout or other transport-level failure.
/// - `InvalidArgument`: locally detected misuse, e.g. a page size above the
///   documented maximum.
#[derive(Clone, Copy, Debug, PartialEq, Eq, Structural)]
pub enum HubspotError {
    NotFound,
    RemoteRejected,
    TransportError,
    InvalidArgument,
}

/// The HTTP methods the remote API is driven with.
#[derive(Clone, Copy, Debug, PartialEq, Eq, Structural)]
pub enum Method {
    Get,
    Post,
    Patch,
    Put,
    Delete,
}

/// One loosely-typed CRM property value.
///
/// Custom properties are schema-flexible, so a value is one of a small set
/// of scalar shapes rather than a fixed struct. Dates are carried as epoch
/// milliseconds, as the remote API serialises them.
#[derive(Clone, Debug)]
pub enum PropValue {
    Text(String),
    Number(i64),
    Flag(bool),
    Date(i64),
}

/// The mathematical value of one property value.
pub enum PropValueV {
    Text(Seq<char>),
    Number(int),
    Flag(bool),
    Date(int),
}

impl View for PropValue {
    type V = PropValueV;

    open spec fn view(&self) -> PropValueV {
        match self {
            PropValue::Text(s) => PropValueV::Text(s@),
            PropValue::Number(n) => PropValueV::Number(*n as int),
            PropValue::Flag(b) => PropValueV::Flag(*b),
            PropValue::Date(d) => PropValueV::Date(*d as int),
        }
    }
}

/// One named property.
#[derive(Clone, Debug)]
pub struct Property {
    pub name: String,
    pub value: PropValue,
}

/// An open mapping from property name to value.
///
/// Entries are kept in insertion order; when a name is set twice the later
/// value wins, so the view of the whole is a `Map` built by inserting each
/// entry in turn.
#[derive(Clone, Debug)]
pub struct PropertyMap {
    entries: Vec<Property>,
}

/// The map described by a sequence of entries, later entries winning.
pub open spec fn map_of(entries: Seq<Property>) -> Map<Seq<char>, PropValueV>
    decreases entries.len(),
{
    if entries.len() == 0 {
        Map::empty()
    } else {
        map_of(entries.drop_last()).insert(entries.last().name@, entries.last().value@)
    }
}

impl View for PropertyMap {
    type V = Map<Seq<char>, PropValueV>;

    closed spec fn view(&self) -> Map<Seq<char>, PropValueV> {
        map_of(self.entries@)
    }
}

/// Shows that a name outside every entry of a suffix is decided by the
/// prefix alone.
proof fn lemma_map_of_skip_suffix(entries: Seq<Property>, i: int, name: Seq<char>)
    requires
        0 <= i <= entries.len(),
        forall|j: int| i <= j < entries.len() ==> entries[j].name@ != name,
    ensures
        map_of(entries).contains_key(name) == map_of(entries.take(i)).contains_key(name),
        map_of(entries).contains_key(name) ==> map_of(entries)[name] == map_of(
            entries.take(i),
        )[name],
    decreases entries.len() - i,
{
    if i < entries.len() {
        lemma_map_of_skip_suffix(entries, i + 1, name);
        assert(entries.take(i + 1).drop_last() =~= entries.take(i));
        assert(entries.take(i + 1).last() == entries[i]);
    } else {
        assert(entries.take(i) =~= entries);
    }
}

impl PropertyMap {
    /// An empty property map.
    pub fn new() -> (r: Self)
        ensures
            r@ == Map::<Seq<char>, PropValueV>::empty(),
    {
        PropertyMap { entries: Vec::new() }
    }

    /// Sets `name` to `value`, replacing any earlier value for that name.
    pub fn set(&mut self, name: String, value: PropValue)
        ensures
            final(self)@ == old(self)@.insert(name@, value@),
    {
        let ghost pre = self.entries@;
        self.entries.push(Property { name, value });
        proof {
            assert(self.entries@.drop_last() =~= pre);
        }
    }

    /// Looks a name up; the latest value set for it, if any.
    pub fn get(&self, name: &String) -> (r: Option<&PropValue>)
        ensures
            match r {
                Some(v) => self@.contains_key(name@) && self@[name@] == v@,
                None => !self@.contains_key(name@),
            },
    {
        let mut i: usize = self.entries.len();
        while i > 0
            invariant
                i <= self.entries@.len(),
                forall|j: int| i <= j < self.entries@.len() ==> self.entries@[j].name@ != name@,
            decreases i,
        {
            i = i - 1;
            if self.entries[i].name == *name {
                proof {
                    lemma_map_of_skip_suffix(self.entries@, i + 1, name@);
                    assert(self.entries@.take(i + 1).drop_last() =~= self.entries@.take(i as int));
                    assert(self.entries@.take(i + 1).last() == self.entries@[i as int]);
                }
                return Some(&self.entries[i].value);
            }
        }
        proof {
            lemma_map_of_skip_suffix(self.entries@, 0, name@);
            assert(self.entries@.take(0) =~= Seq::<Property>::empty());
        }
        None
    }

    /// Whether a value is stored under `name`.
    pub fn contains(&self, name: &String) -> (r: bool)
        ensures
            r == self@.contains_key(name@),
    {
        self.get(name).is_some()
    }
}

/// One remote object instance, as returned by the remote API: an identifier
/// assigned remotely, the property mapping, and system timestamps. A record
/// is a snapshot of a remote row, never locally authoritative.
#[derive(Clone, Debug)]
pub struct Record {
    pub id: String,
    pub properties: PropertyMap,
    pub created_at: Option<String>,
    pub updated_at: Option<String>,
}

/// The typed body a request carries, for the transport to serialise.
#[derive(Clone, Debug)]
pub enum Payload {
    /// No body.
    Empty,
    /// One property map (create, update).
    Properties(PropertyMap),
    /// One property map per item (batch create).
    PropertyList(Vec<PropertyMap>),
    /// Identifier and property map per item (batch update).
    Updates(Vec<(String, PropertyMap)>),
    /// One identifier per item (batch archive).
    Ids(Vec<String>),
    /// The category and type of an association edge to create.
    Association(crate::associations::AssociationCreationDetails),
}

/// A description of one remote API request, ready for a transport to
/// execute. The library builds these; it never performs I/O itself.
///
/// `props` carries the property names a fetch should return, `limit` and
/// `after` the pagination parameters of a list request; each is empty or
/// `None` where the operation does not use it.
#[derive(Clone, Debug)]
pub struct Request {
    pub method: Method,
    pub path: String,
    pub props: Vec<String>,
    pub limit: Option<u32>,
    pub after: Option<String>,
    pub payload: Payload,
}

impl Request {
    /// A request with the given method and path and no parameters.
    pub fn bare(method: Method, path: String) -> (r: Request)
        ensures
            r.method == method,
            r.path@ == path@,
            r.props@ == Seq::<String>::empty(),
            r.limit is None,
            r.after is None,
            r.payload is Empty,
    {
        Request { method, path, props: Vec::new(), limit: None, after: None, payload: Payload::Empty }
    }
}

/// The object-type tags a collection can be built over: each tag knows the
/// literal path segment the remote API uses for its kind of object.
pub trait ToPath: Sized {
    /// The path segment this tag stands for.
    spec fn path_spec(&self) -> Seq<char>;

    /// Returns the path segment; total over the tag's domain, never empty.
    fn to_path(&self) -> (r: String)
        ensures
            r@ == self.path_spec(),
    ;
}

} // verus!
