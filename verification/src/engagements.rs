//! Engagements store data from interactions with records.

use std::sync::Arc;

use vstd::prelude::*;
use vstd::string::StringExecFns;

use crate::api_configs::ApiCollection;
use crate::client::HubspotClient;
use crate::types::ToPath;

verus! {

/// The engagement kinds of the remote CRM, each with its literal path
/// segment.
#[derive(Clone, Copy, Debug, PartialEq, Eq, Structural)]
pub enum EngagementType {
    Notes,
    Calls,
    Emails,
    Meetings,
    Tasks,
}

impl EngagementType {
    /// The path segment of the wire protocol for this engagement kind.
    pub open spec fn path_spec(self) -> Seq<char> {
        match self {
            EngagementType::Notes => "notes"@,
            EngagementType::Calls => "calls"@,
            EngagementType::Emails => "emails"@,
            EngagementType::Meetings => "meetings"@,
            EngagementType::Tasks => "tasks"@,
        }
    }
}

impl ToPath for EngagementType {
    open spec fn path_spec(&self) -> Seq<char> {
        EngagementType::path_spec(*self)
    }

    fn to_path(&self) -> (r: String)
        ensures
            r@ == EngagementType::path_spec(*self),
    {
        match self {
            EngagementType::Notes => String::from_str("notes"),
            EngagementType::Calls => String::from_str("calls"),
            EngagementType::Emails => String::from_str("emails"),
            EngagementType::Meetings => String::from_str("meetings"),
            EngagementType::Tasks => String::from_str("tasks"),
        }
    }
}

/// Every engagement kind has a non-empty path segment, and no two kinds
/// share one.
pub proof fn lemma_engagement_paths_injective(a: EngagementType, b: EngagementType)
    ensures
        a.path_spec().len() > 0,
        EngagementType::path_spec(a) == EngagementType::path_spec(b) ==> a == b,
{
    reveal_strlit("notes");
    reveal_strlit("calls");
    reveal_strlit("emails");
    reveal_strlit("meetings");
    reveal_strlit("tasks");
    if EngagementType::path_spec(a) == EngagementType::path_spec(b) && a != b {
        assert(EngagementType::path_spec(a).len() == EngagementType::path_spec(b).len());
        assert(EngagementType::path_spec(a)[0] == EngagementType::path_spec(b)[0]);
        assert(false);
    }
}

/// One collection per engagement kind, all sharing one client handle.
#[derive(Clone, Debug)]
pub struct EngagementsManager {
    /// Notes attached to other objects.
    pub notes: ApiCollection<EngagementType>,
    /// Logged or recorded calls.
    pub calls: ApiCollection<EngagementType>,
    /// Logged or tracked one-to-one emails.
    pub emails: ApiCollection<EngagementType>,
    /// Meetings with contacts.
    pub meetings: ApiCollection<EngagementType>,
    /// To-dos attached to records.
    pub tasks: ApiCollection<EngagementType>,
}

impl EngagementsManager {
    /// Whether every collection carries the kind its field names and
    /// shares the one client handle.
    pub open spec fn wf(self, client: HubspotClient) -> bool {
        &&& self.notes.object_type == EngagementType::Notes
        &&& self.calls.object_type == EngagementType::Calls
        &&& self.emails.object_type == EngagementType::Emails
        &&& self.meetings.object_type == EngagementType::Meetings
        &&& self.tasks.object_type == EngagementType::Tasks
        &&& self.notes.client == client
        &&& self.calls.client == client
        &&& self.emails.client == client
        &&& self.meetings.client == client
        &&& self.tasks.client == client
    }

    /// Builds one collection per engagement kind over the shared client
    /// handle.
    pub fn new(client: Arc<HubspotClient>) -> (r: Self)
        ensures
            r.wf(*client),
    {
        Self {
            notes: ApiCollection::new(EngagementType::Notes, Arc::clone(&client)),
            calls: ApiCollection::new(EngagementType::Calls, Arc::clone(&client)),
            emails: ApiCollection::new(EngagementType::Emails, Arc::clone(&client)),
            meetings: ApiCollection::new(EngagementType::Meetings, Arc::clone(&client)),
            tasks: ApiCollection::new(EngagementType::Tasks, Arc::clone(&client)),
        }
    }
}

} // verus!
