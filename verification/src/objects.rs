//! The standard object kinds and the manager that holds one collection per
//! kind.

use std::sync::Arc;

use vstd::prelude::*;
use vstd::string::StringExecFns;

use crate::api_configs::ApiCollection;
use crate::client::HubspotClient;
use crate::types::ToPath;

verus! {

/// The standard object kinds of the remote CRM.
///
/// Each variant maps to exactly one literal path segment of the wire
/// protocol; the mapping is total and injective (see
/// [`lemma_object_paths_injective`]).
#[derive(Clone, Copy, Debug, PartialEq, Eq, Structural)]
pub enum ObjectType {
    Contacts,
    Companies,
    Deals,
    LineItems,
    Tickets,
    Notes,
}

impl ObjectType {
    /// The path segment of the wire protocol for this object kind: the
    /// variant name in lower case, with `LineItems` written `line_items`.
    pub open spec fn path_spec(self) -> Seq<char> {
        match self {
            ObjectType::Contacts => "contacts"@,
            ObjectType::Companies => "companies"@,
            ObjectType::Deals => "deals"@,
            ObjectType::LineItems => "line_items"@,
            ObjectType::Tickets => "tickets"@,
            ObjectType::Notes => "notes"@,
        }
    }
}

impl ToPath for ObjectType {
    open spec fn path_spec(&self) -> Seq<char> {
        ObjectType::path_spec(*self)
    }

    fn to_path(&self) -> (r: String)
        ensures
            r@ == ObjectType::path_spec(*self),
    {
        match self {
            ObjectType::Contacts => String::from_str("contacts"),
            ObjectType::Companies => String::from_str("companies"),
            ObjectType::Deals => String::from_str("deals"),
            ObjectType::LineItems => String::from_str("line_items"),
            ObjectType::Tickets => String::from_str("tickets"),
            ObjectType::Notes => String::from_str("notes"),
        }
    }
}

/// Every object kind has a non-empty path segment, and no two kinds share
/// one: the mapping from variant to path is a bijection onto its image.
pub proof fn lemma_object_paths_injective(a: ObjectType, b: ObjectType)
    ensures
        a.path_spec().len() > 0,
        ObjectType::path_spec(a) == ObjectType::path_spec(b) ==> a == b,
{
    reveal_strlit("contacts");
    reveal_strlit("companies");
    reveal_strlit("deals");
    reveal_strlit("line_items");
    reveal_strlit("tickets");
    reveal_strlit("notes");
    if ObjectType::path_spec(a) == ObjectType::path_spec(b) && a != b {
        assert(ObjectType::path_spec(a).len() == ObjectType::path_spec(b).len());
        assert(ObjectType::path_spec(a)[0] == ObjectType::path_spec(b)[0]);
        assert(false);
    }
}

/// Objects represent types of relationships or processes; records are
/// individual instances of an object. The manager holds one collection per
/// standard object kind, all sharing one transport handle.
#[derive(Clone, Debug)]
pub struct ObjectsManager {
    /// Contacts store information about an individual person.
    pub contacts: ApiCollection<ObjectType>,
    /// Companies store information about an individual business or organization.
    pub companies: ApiCollection<ObjectType>,
    /// Deals represent revenue opportunities with a contact or company.
    pub deals: ApiCollection<ObjectType>,
    /// Line items are individual instances of products attached to a deal.
    pub line_items: ApiCollection<ObjectType>,
    /// Tickets contain information associated with deals.
    pub tickets: ApiCollection<ObjectType>,
    /// Notes are notes for other objects.
    pub notes: ApiCollection<ObjectType>,
}

impl ObjectsManager {
    /// Whether every collection carries the kind its field names and shares
    /// the one client handle.
    pub open spec fn wf(self, client: HubspotClient) -> bool {
        &&& self.contacts.object_type == ObjectType::Contacts
        &&& self.companies.object_type == ObjectType::Companies
        &&& self.deals.object_type == ObjectType::Deals
        &&& self.line_items.object_type == ObjectType::LineItems
        &&& self.tickets.object_type == ObjectType::Tickets
        &&& self.notes.object_type == ObjectType::Notes
        &&& self.contacts.client == client
        &&& self.companies.client == client
        &&& self.deals.client == client
        &&& self.line_items.client == client
        &&& self.tickets.client == client
        &&& self.notes.client == client
    }

    /// Builds one collection per standard object kind over the shared
    /// client handle.
    pub fn new(client: Arc<HubspotClient>) -> (r: Self)
        ensures
            r.wf(*client),
    {
        Self {
            contacts: ApiCollection::new(ObjectType::Contacts, Arc::clone(&client)),
            companies: ApiCollection::new(ObjectType::Companies, Arc::clone(&client)),
            deals: ApiCollection::new(ObjectType::Deals, Arc::clone(&client)),
            line_items: ApiCollection::new(ObjectType::LineItems, Arc::clone(&client)),
            tickets: ApiCollection::new(ObjectType::Tickets, Arc::clone(&client)),
            notes: ApiCollection::new(ObjectType::Notes, Arc::clone(&client)),
        }
    }

    /// The collection field that serves a given object kind.
    pub open spec fn collection_for(self, object_type: ObjectType) -> ApiCollection<ObjectType> {
        match object_type {
            ObjectType::Contacts => self.contacts,
            ObjectType::Companies => self.companies,
            ObjectType::Deals => self.deals,
            ObjectType::LineItems => self.line_items,
            ObjectType::Tickets => self.tickets,
            ObjectType::Notes => self.notes,
        }
    }

    /// Uses the object type to return the relevant collection.
    pub fn get_collection(&self, object_type: ObjectType) -> (r: &ApiCollection<ObjectType>)
        ensures
            *r == self.collection_for(object_type),
    {
        match object_type {
            ObjectType::Contacts => &self.contacts,
            ObjectType::Companies => &self.companies,
            ObjectType::Deals => &self.deals,
            ObjectType::LineItems => &self.line_items,
            ObjectType::Tickets => &self.tickets,
            ObjectType::Notes => &self.notes,
        }
    }
}

} // verus!
