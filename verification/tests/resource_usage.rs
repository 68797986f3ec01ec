use fabric::domain::auth::Credential;
use fabric::domain::error::Error;
use fabric::domain::event::{ResourceCreated, UsageCreated, UsageUnitCreated};
use fabric::domain::metadata::KnownField;
use fabric::domain::project::{Project, ProjectStatus, ProjectUser, ProjectUserRole};
use fabric::domain::resource::cluster::build_api_resource;
use fabric::domain::resource::command::{
    build_key, check_name_free, create_step, encode_key, CreateAction, CreateProgress, kind_prefix, resource_created, resource_deleted,
    resource_updated, spec_with_status_fields, status_field_value, CreateCmd, FetchCmd,
    UpdateCmd,
};
use fabric::domain::resource::{Resource, ResourceStatus};
use fabric::domain::usage::cluster::{
    add_units, nanos_to_secs, resource_tier, resource_units, round_interval, usage_created,
    usage_round_events, usage_round_next, usage_round_record, UsageAction, UsageRound,
};
use fabric::domain::usage::{usages_from_event, UsageMetric, UsageResource, UsageResourceUnit};
use fabric::domain::utils::{cluster_namespace, get_random_name, get_random_salt, new_id, now, remove_all};
use fabric::domain::worker::command::{DeleteCmd as KvDeleteCmd, FetchCmd as KvFetchCmd, UpdateCmd as KvUpdateCmd};
use fabric::domain::worker::logs::command::FetchCmd as LogsFetchCmd;
use fabric::domain::worker::logs::FetchDirection;
use fabric::domain::worker::signer::command::{GetPublicKeyCmd, ListCmd, SignPayloadCmd};
use fabric::domain::worker::{KeyValue, KeyValueType};

fn user() -> Credential {
    Credential::Auth0("user id".into())
}

fn project() -> Project {
    Project {
        id: "project id".into(),
        name: "New Project".into(),
        namespace: "sonic-vegas".into(),
        owner: "user id".into(),
        status: ProjectStatus::Active,
        billing_provider: "stripe".into(),
        billing_provider_id: "stripe id".into(),
        billing_subscription_id: None,
        created_at: 10,
        updated_at: 10,
    }
}

fn usage_resource(project_id: &str, spec: &str) -> UsageResource {
    UsageResource {
        project_id: project_id.into(),
        project_namespace: format!("ns-{project_id}"),
        resource_id: format!("r-{project_id}"),
        resource_name: "cardanonode-abc123".into(),
        resource_spec: spec.into(),
    }
}

fn unit(tier: &str, units: i64, interval: u64) -> UsageResourceUnit {
    UsageResourceUnit { units, tier: tier.into(), interval }
}

#[test]
fn text_helpers() {
    assert_eq!(remove_all("cardanonodeport", "port"), "cardanonode");
    assert_eq!(remove_all("portportx", "port"), "x");
    assert_eq!(remove_all("popport", "port"), "pop");
    assert_eq!(remove_all("abc", ""), "abc");
    assert_eq!(kind_prefix("CardanoNodePort"), "cardanonode");
    assert_eq!(kind_prefix("OgmiosPort"), "ogmios");
    assert_eq!(cluster_namespace("sonic-vegas"), "prj-sonic-vegas");
    let salt = get_random_salt();
    assert_eq!(salt.len(), 6);
    assert!(salt.chars().all(|c| c.is_ascii_lowercase() || c.is_ascii_digit()));
    let name = get_random_name(&vec!["sonic".into(), "brave".into()], &vec!["vegas".into()]);
    assert!(name.starts_with("sonic-vegas-") || name.starts_with("brave-vegas-"));
}

#[test]
fn api_resource_of_a_kind() {
    let a = build_api_resource("CardanoNodePort");
    assert_eq!(a.plural, "cardanonodeports");
    assert_eq!(a.group, "demeter.run");
    assert_eq!(a.version, "v1alpha1");
    assert_eq!(a.api_version, "demeter.run/v1alpha1");
    assert_eq!(a.kind, "CardanoNodePort");
}

#[test]
fn resource_commands_validate_their_spec() {
    let c = CreateCmd::new(user(), "p".into(), "CardanoNodePort".into(), "{\"network\":\"mainnet\",\"a\":1}".into()).unwrap();
    assert!(c.name.starts_with("cardanonode-"));
    assert_eq!(c.name.len(), "cardanonode-".len() + 6);
    assert_eq!(c.id.len(), 36);
    assert_eq!(c.spec, "{\"a\":1,\"network\":\"mainnet\"}");
    let e = CreateCmd::new(user(), "p".into(), "K".into(), "not json".into()).unwrap_err();
    assert!(matches!(e, Error::CommandMalformed(_)));
    assert_eq!(e.to_string(), "spec must be a json");
    let e = UpdateCmd::new(user(), "id".into(), "[1,2]".into()).unwrap_err();
    assert_eq!(e.to_string(), "invalid spec json");
    assert_eq!(UpdateCmd::new(user(), "id".into(), "{}".into()).unwrap().spec, "{}");
    assert!(FetchCmd::new(user(), "p".into(), None, Some(120)).is_err());
    assert_eq!(FetchCmd::new(user(), "p".into(), None, None).unwrap().page_size, 12);
}

#[test]
fn generated_status_fields() {
    let key = build_key("project", "resource").unwrap();
    assert_eq!(key.len(), 8);
    let token = encode_key(key.clone(), "CardanoNodePort").unwrap();
    assert!(token.starts_with("cardanonode1"));
    assert!(encode_key(key, "").is_err());
    let password = status_field_value(KnownField::Password, "p", "r", "CardanoNodePort").unwrap();
    assert_eq!(password.len(), 11);
    let user_name = status_field_value(KnownField::Username, "p", "r", "OgmiosPort").unwrap();
    assert!(user_name.starts_with("ogmios1"));
    let spec = spec_with_status_fields(
        "{\"network\":\"mainnet\"}".into(),
        &vec!["authToken".into(), "ignored".into(), "password".into()],
        "p",
        "r",
        "CardanoNodePort",
    )
    .unwrap();
    let v: serde_json::Value = serde_json::from_str(&spec).unwrap();
    assert!(v["authToken"].as_str().unwrap().starts_with("cardanonode1"));
    assert_eq!(v["password"].as_str().unwrap().len(), 11);
    assert!(v.get("ignored").is_none());
    assert_eq!(v["network"], "mainnet");
    assert!(spec_with_status_fields("3".into(), &vec![], "p", "r", "K").is_err());
    assert_eq!(KnownField::from_str("authToken").unwrap(), KnownField::AuthToken);
    assert_eq!(KnownField::from_str("tier").unwrap_err().to_string(), "status field tier not supported");
}

#[test]
fn resource_events() {
    assert_eq!(check_name_free(&None).is_ok(), true);
    let cmd = CreateCmd::new(user(), "project id".into(), "OgmiosPort".into(), "{}".into()).unwrap();
    let evt = resource_created(&cmd, &project(), "{}".into(), 5);
    assert_eq!(evt.status, "active");
    assert_eq!(evt.project_namespace, "sonic-vegas");
    let r = Resource::try_from(evt.clone()).unwrap();
    assert_eq!(r.status, ResourceStatus::Active);
    assert!(r.annotations.is_none());
    let e = check_name_free(&Some(r.clone())).unwrap_err();
    assert_eq!(e.to_string(), "invalid random name, try again");
    let upd = resource_updated(&UpdateCmd::new(user(), r.id.clone(), "{\"x\":1}".into()).unwrap(), &project(), &r, 6);
    assert_eq!(upd.spec_patch, "{\"x\":1}");
    let del = resource_deleted(r.id.clone(), &project(), &r, 7);
    assert_eq!(del.status, "deleted");
    let mut bad: ResourceCreated = evt;
    bad.status = "paused".into();
    assert_eq!(Resource::try_from(bad).err().unwrap().to_string(), "resource status not supported");
    assert_eq!(ResourceStatus::from_str(&ResourceStatus::Deleted.to_string()).unwrap(), ResourceStatus::Deleted);
}

#[test]
fn tier_of_a_resource() {
    assert_eq!(resource_tier(&usage_resource("p", "{\"throughputTier\":\"1\"}")).unwrap().as_deref(), Some("1"));
    assert!(resource_tier(&usage_resource("p", "{\"network\":\"x\"}")).unwrap().is_none());
    assert_eq!(resource_tier(&usage_resource("p", "{")).unwrap_err().to_string(), "fail to deserialize spec");
    assert!(resource_tier(&usage_resource("p", "{\"throughputTier\":1}")).is_err());
}

#[test]
fn units_of_a_round() {
    let r = usage_resource("p", "{}");
    let none = resource_units(&r, "1", &vec![], 60);
    assert_eq!(none.len(), 1);
    assert_eq!((none[0].units, none[0].interval, none[0].tier.as_str()), (0, 60, "1"));
    let got = resource_units(&r, "1", &vec![unit("0", 0, 10), unit("1", 5, 20), unit("2", 3, 30)], 60);
    assert_eq!(got.len(), 2);
    assert_eq!((got[0].tier.as_str(), got[0].units), ("1", 5));
    assert_eq!((got[1].tier.as_str(), got[1].units), ("2", 3));
    let other = resource_units(&r, "1", &vec![unit("0", 4, 10)], 60);
    assert_eq!(other.len(), 2);
    assert_eq!(other[0].units, 0);
    assert_eq!(other[1].tier, "0");
}

#[test]
fn metrics_group_by_project() {
    let mut metrics: Vec<UsageMetric> = Vec::new();
    let a = usage_resource("a", "{}");
    let b = usage_resource("b", "{}");
    add_units(&mut metrics, &a, resource_units(&a, "1", &vec![], 10));
    add_units(&mut metrics, &b, resource_units(&b, "1", &vec![], 10));
    add_units(&mut metrics, &a, resource_units(&a, "1", &vec![unit("1", 7, 10)], 10));
    add_units(&mut metrics, &a, vec![]);
    assert_eq!(metrics.len(), 2);
    assert_eq!(metrics[0].project_id, "a");
    assert_eq!(metrics[0].resources.len(), 2);
    assert_eq!(metrics[1].resources.len(), 1);
    let evt = usage_created(&metrics[0], "e".into(), "cluster", 99);
    assert_eq!(evt.usages.len(), 2);
    assert_eq!(evt.usages[1].units, 7);
    assert_eq!(evt.project_namespace, "ns-a");
    assert_eq!(evt.cluster_id, "cluster");
}

#[test]
fn round_seconds() {
    assert_eq!(nanos_to_secs(0), 0);
    assert_eq!(nanos_to_secs(1_999_999_999), 1);
    assert_eq!(nanos_to_secs(-1), -1);
    assert_eq!(nanos_to_secs(-1_000_000_000), -1);
    assert_eq!(nanos_to_secs(-1_000_000_001), -2);
    assert_eq!(round_interval(1_000_000_000, 61_500_000_000), 60);
    assert_eq!(round_interval(2_000_000_000, 1_000_000_000), u64::MAX);
}

#[test]
fn usage_records_of_an_event() {
    let evt = UsageCreated {
        id: "evt".into(),
        cluster_id: "c".into(),
        project_id: "p".into(),
        project_namespace: "ns".into(),
        usages: vec![
            UsageUnitCreated { resource_id: "r1".into(), resource_name: "n1".into(), tier: "0".into(), units: 120, interval: 10 },
            UsageUnitCreated { resource_id: "r2".into(), resource_name: "n2".into(), tier: "1".into(), units: 3, interval: 20 },
        ],
        created_at: 42,
    };
    let usages = usages_from_event(&evt);
    assert_eq!(usages.len(), 2);
    assert_eq!(usages[1].resource_id, "r2");
    assert_eq!(usages[0].event_id, "evt");
    assert_eq!(usages[0].created_at, 42);
    assert_ne!(usages[0].id, usages[1].id);
}

#[test]
fn worker_commands() {
    assert_eq!(KvFetchCmd::new(user(), "w".into(), None, None).unwrap().page_size, 12);
    assert!(KvFetchCmd::new(user(), "w".into(), None, Some(500)).is_err());
    let kv = KeyValue { worker_id: "w".into(), key: "k".into(), value: b"v".to_vec(), value_type: KeyValueType::Text, secure: false };
    assert_eq!(KvUpdateCmd::new(user(), kv).key_value.key, "k");
    assert_eq!(KvDeleteCmd::new(user(), "w".into(), "k".into()).key, "k");
    let l = LogsFetchCmd::new(user(), "w".into(), 1_717_000_000, None, None).unwrap();
    assert_eq!((l.limit, l.direction), (12, FetchDirection::Next));
    let e = LogsFetchCmd::new(user(), "w".into(), 0, Some(FetchDirection::Prev), Some(120)).unwrap_err();
    assert_eq!(e.to_string(), "limit exceeded the maximum of 120");
    assert_eq!(ListCmd::new(user(), "w".into()).worker_id, "w");
    assert_eq!(GetPublicKeyCmd::new(user(), "w".into(), "k".into()).key_name, "k");
    assert_eq!(SignPayloadCmd::new(user(), "w".into(), "k".into(), vec![1]).payload, vec![1]);
    for t in [KeyValueType::Text, KeyValueType::Bytes, KeyValueType::Int, KeyValueType::Bool] {
        assert_eq!(KeyValueType::from_str(&t.to_string()).unwrap(), t);
    }
    assert!(KeyValueType::from_str("float").is_err());
}

#[test]
fn encoded_key_decodes_to_prefix_and_key() {
    let key = build_key("project", "resource").unwrap();
    let token = encode_key(key.clone(), "CardanoNodePort").unwrap();
    let (hrp, data) = bech32::decode(&token).unwrap();
    assert_eq!(hrp.to_string(), "cardanonode");
    assert_eq!(data, key);
}

#[test]
fn status_fields_fail_only_where_a_value_cannot_be_generated() {
    // The kind "Port" has an empty prefix, which bech32 refuses; a password needs no prefix.
    assert!(spec_with_status_fields("{}".into(), &vec!["password".into()], "p", "r", "Port").is_ok());
    assert!(spec_with_status_fields("{}".into(), &vec!["authToken".into()], "p", "r", "Port").is_err());
    assert!(status_field_value(KnownField::Password, "p", "r", "Port").is_ok());
    assert!(status_field_value(KnownField::AuthToken, "p", "r", "Port").is_err());
}

#[test]
fn resource_creation_reads_and_checks_in_order() {
    let cmd = CreateCmd::new(user(), "project id".into(), "CardanoNodePort".into(), "{\"network\":\"mainnet\"}".into()).unwrap();
    let mut progress = CreateProgress::new();
    assert!(matches!(create_step(&cmd, 3, &progress), CreateAction::FindPermission(u, p) if u == "user id" && p == "project id"));
    progress.permission = Some(None);
    assert!(matches!(create_step(&cmd, 3, &progress), CreateAction::Refuse(Error::Unauthorized(_))));
    progress.permission = Some(Some(ProjectUser { user_id: "user id".into(), project_id: "project id".into(), role: ProjectUserRole::Member, created_at: 1 }));
    assert!(matches!(create_step(&cmd, 3, &progress), CreateAction::FindByName(p, n) if p == "project id" && n == cmd.name));
    progress.existing = Some(None);
    assert!(matches!(create_step(&cmd, 3, &progress), CreateAction::FindKind(k) if k == "CardanoNodePort"));
    progress.status_fields = Some(None);
    match create_step(&cmd, 3, &progress) {
        CreateAction::Refuse(e) => assert_eq!(e.to_string(), "kind not supported"),
        _ => panic!("an unsupported kind is refused"),
    }
    progress.status_fields = Some(Some(vec!["authToken".into()]));
    assert!(matches!(create_step(&cmd, 3, &progress), CreateAction::FindProject(p) if p == "project id"));
    progress.project = Some(Some(project()));
    match create_step(&cmd, 3, &progress) {
        CreateAction::Dispatch(evt) => {
            assert_eq!(evt.id, cmd.id);
            assert_eq!(evt.project_namespace, "sonic-vegas");
            assert_eq!(evt.created_at, 3);
            let v: serde_json::Value = serde_json::from_str(&evt.spec).unwrap();
            assert!(v["authToken"].as_str().unwrap().starts_with("cardanonode1"));
            assert_eq!(v["network"], "mainnet");
        }
        _ => panic!("a valid creation is dispatched"),
    }
    // An API key acts on its own project without any membership read.
    let key_cmd = CreateCmd::new(Credential::ApiKey("project id".into()), "project id".into(), "OgmiosPort".into(), "{}".into()).unwrap();
    assert!(matches!(create_step(&key_cmd, 3, &CreateProgress::new()), CreateAction::FindByName(_, _)));
}

#[test]
fn a_round_queries_metered_resources_and_groups_units_by_project() {
    let resources = vec![
        usage_resource("a", "{\"throughputTier\":\"1\"}"),
        usage_resource("b", "{}"),
        usage_resource("c", "{\"throughputTier\":\"0\"}"),
        usage_resource("a", "{\"throughputTier\":\"2\"}"),
    ];
    let mut round = UsageRound::new(resources, 60);
    let mut queried = Vec::new();
    loop {
        match usage_round_next(&mut round) {
            UsageAction::FindMetrics(namespace, _) => {
                queried.push(namespace.clone());
                let first = queried.len() == 1;
                let reported = if first { vec![unit("1", 4, 60)] } else { vec![] };
                usage_round_record(&mut round, reported);
            }
            UsageAction::Done => break,
            UsageAction::Refuse(e) => panic!("{}", e.to_string()),
        }
    }
    // The resource without a tier is never queried.
    assert_eq!(queried, vec!["ns-a", "ns-c", "ns-a"]);
    let events = usage_round_events(&round, "cluster", 5);
    assert_eq!(events.len(), 2);
    assert_eq!(events[0].project_id, "a");
    // Project a: four units at tier 1, then the zero unit of its tier-2 resource.
    assert_eq!(events[0].usages.len(), 2);
    assert_eq!((events[0].usages[0].units, events[0].usages[0].tier.as_str()), (4, "1"));
    assert_eq!((events[0].usages[1].units, events[0].usages[1].tier.as_str(), events[0].usages[1].interval), (0, "2", 60));
    assert_eq!(events[1].project_id, "c");
    assert_eq!(events[1].project_namespace, "ns-c");
    assert_ne!(events[0].id, events[1].id);
}

#[test]
fn a_round_stops_on_an_unreadable_spec() {
    let mut round = UsageRound::new(vec![usage_resource("a", "{"), usage_resource("b", "{}")], 60);
    match usage_round_next(&mut round) {
        UsageAction::Refuse(e) => assert_eq!(e.to_string(), "fail to deserialize spec"),
        _ => panic!("an unreadable spec stops the round"),
    }
}

#[test]
fn ids_are_uuid_v4_text_and_times_are_nanoseconds() {
    let id = new_id();
    let chars: Vec<char> = id.chars().collect();
    assert_eq!(chars.len(), 36);
    for (i, c) in chars.iter().enumerate() {
        if [8, 13, 18, 23].contains(&i) {
            assert_eq!(*c, '-');
        } else {
            assert!(c.is_ascii_digit() || ('a'..='f').contains(c));
        }
    }
    assert_eq!(chars[14], '4');
    assert!(['8', '9', 'a', 'b'].contains(&chars[19]));
    let t = now();
    let secs = chrono::Utc::now().timestamp() as i128;
    assert!(t / 1_000_000_000 <= secs && secs <= t / 1_000_000_000 + 5);
}

#[test]
fn kind_prefix_has_no_upper_case() {
    assert_eq!(kind_prefix("CardanoNodePORT"), "cardanonode");
    let key = build_key("p", "r").unwrap();
    let token = encode_key(key.clone(), "KupoPort").unwrap();
    let (hrp, data) = bech32::decode(&token).unwrap();
    assert_eq!(hrp.to_string(), "kupo");
    assert_eq!(data, key);
}
