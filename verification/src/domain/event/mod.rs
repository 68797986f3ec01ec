use vstd::prelude::*;

use super::error::Error;
use super::utils::{concat, str_eq};

verus! {

// Times are nanoseconds since the Unix epoch, UTC.

#[derive(Debug, Clone)]
pub struct ProjectCreated {
    pub id: String,
    pub name: String,
    pub namespace: String,
    pub owner: String,
    pub status: String,
    pub billing_provider: String,
    pub billing_provider_id: String,
    pub billing_subscription_id: Option<String>,
    pub created_at: i128,
    pub updated_at: i128,
}

#[derive(Debug, Clone)]
pub struct ProjectUpdated {
    pub id: String,
    pub name: Option<String>,
    pub status: Option<String>,
    pub updated_at: i128,
}

#[derive(Debug, Clone)]
pub struct ProjectDeleted {
    pub id: String,
    pub namespace: String,
    pub deleted_at: i128,
}

#[derive(Debug, Clone)]
pub struct ProjectOwnerChanged {
    pub id: String,
    pub project_id: String,
    pub previous_owner: String,
    pub new_owner: String,
    pub changed_by: String,
    pub changed_at: i128,
}

#[derive(Debug, Clone)]
pub struct ProjectSecretCreated {
    pub id: String,
    pub project_id: String,
    pub name: String,
    pub phc: String,
    pub secret: Vec<u8>,
    pub created_at: i128,
}

#[derive(Debug, Clone)]
pub struct ProjectSecretDeleted {
    pub id: String,
    pub deleted_by: String,
    pub deleted_at: i128,
}

#[derive(Debug, Clone)]
pub struct ProjectUserInviteCreated {
    pub id: String,
    pub project_id: String,
    pub email: String,
    pub role: String,
    pub code: String,
    pub expires_in: i128,
    pub created_at: i128,
}

#[derive(Debug, Clone)]
pub struct ProjectUserInviteAccepted {
    pub id: String,
    pub project_id: String,
    pub user_id: String,
    pub role: String,
    pub created_at: i128,
}

#[derive(Debug, Clone)]
pub struct ProjectUserInviteDeleted {
    pub id: String,
    pub project_id: String,
    pub deleted_by: String,
    pub deleted_at: i128,
}

#[derive(Debug, Clone)]
pub struct ProjectUserDeleted {
    pub id: String,
    pub project_id: String,
    pub user_id: String,
    pub role: String,
    pub deleted_by: String,
    pub deleted_at: i128,
}

#[derive(Debug, Clone)]
pub struct ResourceCreated {
    pub id: String,
    pub project_id: String,
    pub project_namespace: String,
    pub name: String,
    pub kind: String,
    pub spec: String,
    pub status: String,
    pub created_at: i128,
    pub updated_at: i128,
}

#[derive(Debug, Clone)]
pub struct ResourceUpdated {
    pub id: String,
    pub project_id: String,
    pub project_namespace: String,
    pub name: String,
    pub kind: String,
    pub spec_patch: String,
    pub updated_at: i128,
}

#[derive(Debug, Clone)]
pub struct ResourceDeleted {
    pub id: String,
    pub project_id: String,
    pub project_namespace: String,
    pub name: String,
    pub kind: String,
    pub status: String,
    pub deleted_at: i128,
}

#[derive(Debug, Clone)]
pub struct UsageUnitCreated {
    pub resource_id: String,
    pub resource_name: String,
    pub tier: String,
    pub units: i64,
    pub interval: u64,
}

#[derive(Debug, Clone)]
pub struct UsageCreated {
    pub id: String,
    pub cluster_id: String,
    pub project_id: String,
    pub project_namespace: String,
    pub usages: Vec<UsageUnitCreated>,
    pub created_at: i128,
}

/// Every event that the domain publishes on the event bus.
#[derive(Debug, Clone)]
pub enum Event {
    ProjectCreated(ProjectCreated),
    ProjectUpdated(ProjectUpdated),
    ProjectDeleted(ProjectDeleted),
    ProjectOwnerChanged(ProjectOwnerChanged),
    ProjectSecretCreated(ProjectSecretCreated),
    ProjectSecretDeleted(ProjectSecretDeleted),
    ProjectUserInviteCreated(ProjectUserInviteCreated),
    ProjectUserInviteAccepted(ProjectUserInviteAccepted),
    ProjectUserInviteDeleted(ProjectUserInviteDeleted),
    ProjectUserDeleted(ProjectUserDeleted),
    ResourceCreated(ResourceCreated),
    ResourceUpdated(ResourceUpdated),
    ResourceDeleted(ResourceDeleted),
    UsageCreated(UsageCreated),
}

/// The variant of an event, without its payload: what the bus key names.
#[derive(Debug, Clone, Copy, PartialEq, Eq, Structural)]
pub enum EventKind {
    ProjectCreated,
    ProjectUpdated,
    ProjectDeleted,
    ProjectOwnerChanged,
    ProjectSecretCreated,
    ProjectSecretDeleted,
    ProjectUserInviteCreated,
    ProjectUserInviteAccepted,
    ProjectUserInviteDeleted,
    ProjectUserDeleted,
    ResourceCreated,
    ResourceUpdated,
    ResourceDeleted,
    UsageCreated,
}

/// The bus key of each kind of event: the name of the variant.
pub open spec fn spec_kind_key(k: EventKind) -> Seq<char> {
    match k {
        EventKind::ProjectCreated => "ProjectCreated"@,
        EventKind::ProjectUpdated => "ProjectUpdated"@,
        EventKind::ProjectDeleted => "ProjectDeleted"@,
        EventKind::ProjectOwnerChanged => "ProjectOwnerChanged"@,
        EventKind::ProjectSecretCreated => "ProjectSecretCreated"@,
        EventKind::ProjectSecretDeleted => "ProjectSecretDeleted"@,
        EventKind::ProjectUserInviteCreated => "ProjectUserInviteCreated"@,
        EventKind::ProjectUserInviteAccepted => "ProjectUserInviteAccepted"@,
        EventKind::ProjectUserInviteDeleted => "ProjectUserInviteDeleted"@,
        EventKind::ProjectUserDeleted => "ProjectUserDeleted"@,
        EventKind::ResourceCreated => "ResourceCreated"@,
        EventKind::ResourceUpdated => "ResourceUpdated"@,
        EventKind::ResourceDeleted => "ResourceDeleted"@,
        EventKind::UsageCreated => "UsageCreated"@,
    }
}

/// The kind whose key is `key`, if any.
pub open spec fn spec_kind_from_key(key: Seq<char>) -> Option<EventKind> {
    if key == "ProjectCreated"@ {
        Some(EventKind::ProjectCreated)
    } else if key == "ProjectUpdated"@ {
        Some(EventKind::ProjectUpdated)
    } else if key == "ProjectDeleted"@ {
        Some(EventKind::ProjectDeleted)
    } else if key == "ProjectOwnerChanged"@ {
        Some(EventKind::ProjectOwnerChanged)
    } else if key == "ProjectSecretCreated"@ {
        Some(EventKind::ProjectSecretCreated)
    } else if key == "ProjectSecretDeleted"@ {
        Some(EventKind::ProjectSecretDeleted)
    } else if key == "ProjectUserInviteCreated"@ {
        Some(EventKind::ProjectUserInviteCreated)
    } else if key == "ProjectUserInviteAccepted"@ {
        Some(EventKind::ProjectUserInviteAccepted)
    } else if key == "ProjectUserInviteDeleted"@ {
        Some(EventKind::ProjectUserInviteDeleted)
    } else if key == "ProjectUserDeleted"@ {
        Some(EventKind::ProjectUserDeleted)
    } else if key == "ResourceCreated"@ {
        Some(EventKind::ResourceCreated)
    } else if key == "ResourceUpdated"@ {
        Some(EventKind::ResourceUpdated)
    } else if key == "ResourceDeleted"@ {
        Some(EventKind::ResourceDeleted)
    } else if key == "UsageCreated"@ {
        Some(EventKind::UsageCreated)
    } else {
        None
    }
}

proof fn reveal_keys()
    ensures
        forall|k: EventKind| spec_kind_from_key(#[trigger] spec_kind_key(k)) == Some(k),
{
    reveal_strlit("ProjectCreated");
    reveal_strlit("ProjectUpdated");
    reveal_strlit("ProjectDeleted");
    reveal_strlit("ProjectOwnerChanged");
    reveal_strlit("ProjectSecretCreated");
    reveal_strlit("ProjectSecretDeleted");
    reveal_strlit("ProjectUserInviteCreated");
    reveal_strlit("ProjectUserInviteAccepted");
    reveal_strlit("ProjectUserInviteDeleted");
    reveal_strlit("ProjectUserDeleted");
    reveal_strlit("ResourceCreated");
    reveal_strlit("ResourceUpdated");
    reveal_strlit("ResourceDeleted");
    reveal_strlit("UsageCreated");
    assert("ProjectCreated"@.len() == 14);
    assert("ProjectUpdated"@.len() == 14);
    assert("ProjectDeleted"@.len() == 14);
    assert("ProjectOwnerChanged"@.len() == 19);
    assert("ProjectSecretCreated"@.len() == 20);
    assert("ProjectSecretDeleted"@.len() == 20);
    assert("ProjectUserInviteCreated"@.len() == 24);
    assert("ProjectUserInviteAccepted"@.len() == 25);
    assert("ProjectUserInviteDeleted"@.len() == 24);
    assert("ProjectUserDeleted"@.len() == 18);
    assert("ResourceCreated"@.len() == 15);
    assert("ResourceUpdated"@.len() == 15);
    assert("ResourceDeleted"@.len() == 15);
    assert("UsageCreated"@.len() == 12);
    assert("ProjectCreated"@[7] != "ProjectUpdated"@[7]);
    assert("ProjectCreated"@[7] != "ProjectDeleted"@[7]);
    assert("ProjectUpdated"@[7] != "ProjectDeleted"@[7]);
    assert("ProjectSecretCreated"@[13] != "ProjectSecretDeleted"@[13]);
    assert("ProjectUserInviteCreated"@[17] != "ProjectUserInviteDeleted"@[17]);
    assert("ResourceCreated"@[8] != "ResourceUpdated"@[8]);
    assert("ResourceCreated"@[8] != "ResourceDeleted"@[8]);
    assert("ResourceUpdated"@[8] != "ResourceDeleted"@[8]);
}

impl EventKind {
    /// The bus key of this kind of event.
    pub fn key(&self) -> (k: String)
        ensures
            k@ == spec_kind_key(*self),
    {
        let s = match self {
            EventKind::ProjectCreated => "ProjectCreated",
            EventKind::ProjectUpdated => "ProjectUpdated",
            EventKind::ProjectDeleted => "ProjectDeleted",
            EventKind::ProjectOwnerChanged => "ProjectOwnerChanged",
            EventKind::ProjectSecretCreated => "ProjectSecretCreated",
            EventKind::ProjectSecretDeleted => "ProjectSecretDeleted",
            EventKind::ProjectUserInviteCreated => "ProjectUserInviteCreated",
            EventKind::ProjectUserInviteAccepted => "ProjectUserInviteAccepted",
            EventKind::ProjectUserInviteDeleted => "ProjectUserInviteDeleted",
            EventKind::ProjectUserDeleted => "ProjectUserDeleted",
            EventKind::ResourceCreated => "ResourceCreated",
            EventKind::ResourceUpdated => "ResourceUpdated",
            EventKind::ResourceDeleted => "ResourceDeleted",
            EventKind::UsageCreated => "UsageCreated",
        };
        s.to_owned()
    }

    /// The kind named by a bus key; an unknown key is refused with
    /// `Unexpected("Event key '<key>' not implemented")`.
    pub fn from_key(key: &str) -> (r: Result<EventKind, Error>)
        ensures
            match spec_kind_from_key(key@) {
                Some(k) => r == Ok::<EventKind, Error>(k),
                None => r matches Err(e) && e is Unexpected && e.message() == "Event key '"@
                    + key@ + "' not implemented"@,
            },
    {
        if str_eq(key, "ProjectCreated") {
            Ok(EventKind::ProjectCreated)
        } else if str_eq(key, "ProjectUpdated") {
            Ok(EventKind::ProjectUpdated)
        } else if str_eq(key, "ProjectDeleted") {
            Ok(EventKind::ProjectDeleted)
        } else if str_eq(key, "ProjectOwnerChanged") {
            Ok(EventKind::ProjectOwnerChanged)
        } else if str_eq(key, "ProjectSecretCreated") {
            Ok(EventKind::ProjectSecretCreated)
        } else if str_eq(key, "ProjectSecretDeleted") {
            Ok(EventKind::ProjectSecretDeleted)
        } else if str_eq(key, "ProjectUserInviteCreated") {
            Ok(EventKind::ProjectUserInviteCreated)
        } else if str_eq(key, "ProjectUserInviteAccepted") {
            Ok(EventKind::ProjectUserInviteAccepted)
        } else if str_eq(key, "ProjectUserInviteDeleted") {
            Ok(EventKind::ProjectUserInviteDeleted)
        } else if str_eq(key, "ProjectUserDeleted") {
            Ok(EventKind::ProjectUserDeleted)
        } else if str_eq(key, "ResourceCreated") {
            Ok(EventKind::ResourceCreated)
        } else if str_eq(key, "ResourceUpdated") {
            Ok(EventKind::ResourceUpdated)
        } else if str_eq(key, "ResourceDeleted") {
            Ok(EventKind::ResourceDeleted)
        } else if str_eq(key, "UsageCreated") {
            Ok(EventKind::UsageCreated)
        } else {
            let m = concat("Event key '", key);
            let m = concat(m.as_str(), "' not implemented");
            Err(Error::Unexpected(m))
        }
    }
}

/// The kind of an event.
pub open spec fn spec_event_kind(e: Event) -> EventKind {
    match e {
        Event::ProjectCreated(_) => EventKind::ProjectCreated,
        Event::ProjectUpdated(_) => EventKind::ProjectUpdated,
        Event::ProjectDeleted(_) => EventKind::ProjectDeleted,
        Event::ProjectOwnerChanged(_) => EventKind::ProjectOwnerChanged,
        Event::ProjectSecretCreated(_) => EventKind::ProjectSecretCreated,
        Event::ProjectSecretDeleted(_) => EventKind::ProjectSecretDeleted,
        Event::ProjectUserInviteCreated(_) => EventKind::ProjectUserInviteCreated,
        Event::ProjectUserInviteAccepted(_) => EventKind::ProjectUserInviteAccepted,
        Event::ProjectUserInviteDeleted(_) => EventKind::ProjectUserInviteDeleted,
        Event::ProjectUserDeleted(_) => EventKind::ProjectUserDeleted,
        Event::ResourceCreated(_) => EventKind::ResourceCreated,
        Event::ResourceUpdated(_) => EventKind::ResourceUpdated,
        Event::ResourceDeleted(_) => EventKind::ResourceDeleted,
        Event::UsageCreated(_) => EventKind::UsageCreated,
    }
}

impl Event {
    /// The kind of this event.
    pub fn kind(&self) -> (k: EventKind)
        ensures
            k == spec_event_kind(*self),
    {
        match self {
            Event::ProjectCreated(_) => EventKind::ProjectCreated,
            Event::ProjectUpdated(_) => EventKind::ProjectUpdated,
            Event::ProjectDeleted(_) => EventKind::ProjectDeleted,
            Event::ProjectOwnerChanged(_) => EventKind::ProjectOwnerChanged,
            Event::ProjectSecretCreated(_) => EventKind::ProjectSecretCreated,
            Event::ProjectSecretDeleted(_) => EventKind::ProjectSecretDeleted,
            Event::ProjectUserInviteCreated(_) => EventKind::ProjectUserInviteCreated,
            Event::ProjectUserInviteAccepted(_) => EventKind::ProjectUserInviteAccepted,
            Event::ProjectUserInviteDeleted(_) => EventKind::ProjectUserInviteDeleted,
            Event::ProjectUserDeleted(_) => EventKind::ProjectUserDeleted,
            Event::ResourceCreated(_) => EventKind::ResourceCreated,
            Event::ResourceUpdated(_) => EventKind::ResourceUpdated,
            Event::ResourceDeleted(_) => EventKind::ResourceDeleted,
            Event::UsageCreated(_) => EventKind::UsageCreated,
        }
    }

    /// The bus key under which this event is published: the name of its variant.
    pub fn key(&self) -> (k: String)
        ensures
            k@ == spec_kind_key(spec_event_kind(*self)),
            match *self {
                Event::ProjectCreated(_) => k@ == "ProjectCreated"@,
                Event::ProjectUpdated(_) => k@ == "ProjectUpdated"@,
                Event::ProjectDeleted(_) => k@ == "ProjectDeleted"@,
                Event::ProjectOwnerChanged(_) => k@ == "ProjectOwnerChanged"@,
                Event::ProjectSecretCreated(_) => k@ == "ProjectSecretCreated"@,
                Event::ProjectSecretDeleted(_) => k@ == "ProjectSecretDeleted"@,
                Event::ProjectUserInviteCreated(_) => k@ == "ProjectUserInviteCreated"@,
                Event::ProjectUserInviteAccepted(_) => k@ == "ProjectUserInviteAccepted"@,
                Event::ProjectUserInviteDeleted(_) => k@ == "ProjectUserInviteDeleted"@,
                Event::ProjectUserDeleted(_) => k@ == "ProjectUserDeleted"@,
                Event::ResourceCreated(_) => k@ == "ResourceCreated"@,
                Event::ResourceUpdated(_) => k@ == "ResourceUpdated"@,
                Event::ResourceDeleted(_) => k@ == "ResourceDeleted"@,
                Event::UsageCreated(_) => k@ == "UsageCreated"@,
            },
    {
        proof {
            lemma_event_key_names(*self);
        }
        self.kind().key()
    }
}

/// Every key that names a kind is the key of that kind, and every kind is named back by its
/// key: reading the key of a published event gives back the kind it was published as.
pub proof fn lemma_event_key_roundtrip(k: EventKind, key: Seq<char>)
    ensures
        spec_kind_from_key(spec_kind_key(k)) == Some(k),
        spec_kind_from_key(key) matches Some(k2) ==> spec_kind_key(k2) == key,
{
    reveal_keys();
}

/// Two different kinds never share a key.
pub proof fn lemma_event_keys_distinct(a: EventKind, b: EventKind)
    ensures
        spec_kind_key(a) == spec_kind_key(b) ==> a == b,
{
    lemma_event_key_roundtrip(a, spec_kind_key(a));
    lemma_event_key_roundtrip(b, spec_kind_key(b));
}

/// An event is published under the name of its own variant, and that name read back from the
/// bus gives the kind of the event: a `ResourceCreated` event goes out under
/// `"ResourceCreated"`, which reads back as a resource creation, and so on for every variant.
pub proof fn lemma_event_key_names(e: Event)
    ensures
        match e {
            Event::ProjectCreated(_) => spec_kind_key(spec_event_kind(e)) == "ProjectCreated"@ && spec_kind_from_key(
                "ProjectCreated"@,
            ) == Some(spec_event_kind(e)),
            Event::ProjectUpdated(_) => spec_kind_key(spec_event_kind(e)) == "ProjectUpdated"@ && spec_kind_from_key(
                "ProjectUpdated"@,
            ) == Some(spec_event_kind(e)),
            Event::ProjectDeleted(_) => spec_kind_key(spec_event_kind(e)) == "ProjectDeleted"@ && spec_kind_from_key(
                "ProjectDeleted"@,
            ) == Some(spec_event_kind(e)),
            Event::ProjectOwnerChanged(_) => spec_kind_key(spec_event_kind(e)) == "ProjectOwnerChanged"@ && spec_kind_from_key(
                "ProjectOwnerChanged"@,
            ) == Some(spec_event_kind(e)),
            Event::ProjectSecretCreated(_) => spec_kind_key(spec_event_kind(e)) == "ProjectSecretCreated"@ && spec_kind_from_key(
                "ProjectSecretCreated"@,
            ) == Some(spec_event_kind(e)),
            Event::ProjectSecretDeleted(_) => spec_kind_key(spec_event_kind(e)) == "ProjectSecretDeleted"@ && spec_kind_from_key(
                "ProjectSecretDeleted"@,
            ) == Some(spec_event_kind(e)),
            Event::ProjectUserInviteCreated(_) => spec_kind_key(spec_event_kind(e)) == "ProjectUserInviteCreated"@ && spec_kind_from_key(
                "ProjectUserInviteCreated"@,
            ) == Some(spec_event_kind(e)),
            Event::ProjectUserInviteAccepted(_) => spec_kind_key(spec_event_kind(e)) == "ProjectUserInviteAccepted"@ && spec_kind_from_key(
                "ProjectUserInviteAccepted"@,
            ) == Some(spec_event_kind(e)),
            Event::ProjectUserInviteDeleted(_) => spec_kind_key(spec_event_kind(e)) == "ProjectUserInviteDeleted"@ && spec_kind_from_key(
                "ProjectUserInviteDeleted"@,
            ) == Some(spec_event_kind(e)),
            Event::ProjectUserDeleted(_) => spec_kind_key(spec_event_kind(e)) == "ProjectUserDeleted"@ && spec_kind_from_key(
                "ProjectUserDeleted"@,
            ) == Some(spec_event_kind(e)),
            Event::ResourceCreated(_) => spec_kind_key(spec_event_kind(e)) == "ResourceCreated"@ && spec_kind_from_key(
                "ResourceCreated"@,
            ) == Some(spec_event_kind(e)),
            Event::ResourceUpdated(_) => spec_kind_key(spec_event_kind(e)) == "ResourceUpdated"@ && spec_kind_from_key(
                "ResourceUpdated"@,
            ) == Some(spec_event_kind(e)),
            Event::ResourceDeleted(_) => spec_kind_key(spec_event_kind(e)) == "ResourceDeleted"@ && spec_kind_from_key(
                "ResourceDeleted"@,
            ) == Some(spec_event_kind(e)),
            Event::UsageCreated(_) => spec_kind_key(spec_event_kind(e)) == "UsageCreated"@ && spec_kind_from_key(
                "UsageCreated"@,
            ) == Some(spec_event_kind(e)),
        },
{
    reveal_keys();
    reveal_strlit("ProjectCreated");
    reveal_strlit("ProjectUpdated");
    reveal_strlit("ProjectDeleted");
    reveal_strlit("ProjectOwnerChanged");
    reveal_strlit("ProjectSecretCreated");
    reveal_strlit("ProjectSecretDeleted");
    reveal_strlit("ProjectUserInviteCreated");
    reveal_strlit("ProjectUserInviteAccepted");
    reveal_strlit("ProjectUserInviteDeleted");
    reveal_strlit("ProjectUserDeleted");
    reveal_strlit("ResourceCreated");
    reveal_strlit("ResourceUpdated");
    reveal_strlit("ResourceDeleted");
    reveal_strlit("UsageCreated");
}

} // verus!
