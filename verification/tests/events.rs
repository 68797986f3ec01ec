use fabric::domain::event::{Event, EventKind, ProjectDeleted};

const KINDS: [EventKind; 14] = [
    EventKind::ProjectCreated,
    EventKind::ProjectUpdated,
    EventKind::ProjectDeleted,
    EventKind::ProjectOwnerChanged,
    EventKind::ProjectSecretCreated,
    EventKind::ProjectSecretDeleted,
    EventKind::ProjectUserInviteCreated,
    EventKind::ProjectUserInviteAccepted,
    EventKind::ProjectUserInviteDeleted,
    EventKind::ProjectUserDeleted,
    EventKind::ResourceCreated,
    EventKind::ResourceUpdated,
    EventKind::ResourceDeleted,
    EventKind::UsageCreated,
];

#[test]
fn every_kind_reads_back_from_its_key() {
    for k in KINDS {
        assert_eq!(EventKind::from_key(&k.key()).unwrap(), k);
    }
    for a in KINDS {
        for b in KINDS {
            assert_eq!(a.key() == b.key(), a == b);
        }
    }
}

#[test]
fn event_keys_name_their_variant() {
    let e = Event::ProjectDeleted(ProjectDeleted { id: "1".into(), namespace: "ns".into(), deleted_at: 0 });
    assert_eq!(e.key(), "ProjectDeleted");
    assert_eq!(e.kind(), EventKind::ProjectDeleted);
    assert_eq!(EventKind::UsageCreated.key(), "UsageCreated");
}

#[test]
fn unknown_key_is_refused() {
    let e = EventKind::from_key("PortCreated").unwrap_err();
    assert!(matches!(e, fabric::domain::error::Error::Unexpected(_)));
    assert_eq!(e.to_string(), "Event key 'PortCreated' not implemented");
}
