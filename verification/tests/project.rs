use std::time::Duration;

use fabric::domain::auth::{assert_permission, first_profile, permission_lookup, user_id_query, Auth0Profile, Credential};
use fabric::domain::error::Error;
use fabric::domain::project::command::{
    aggregate_users, assert_credential, check_invite_email, check_invite_fresh,
    check_invite_not_accepted, check_invite_sent, check_namespace_free, check_new_owner_member,
    check_not_member, check_project_deletion, check_secret_capacity, check_transfer_project,
    check_user_deletion, decode_api_key, find_verified_secret, generate_secret_key,
    invite_expires_in, me_user, page_of, project_created, project_deleted,
    project_owner_changed, project_secret_created, project_secret_deleted,
    project_updated, project_user_deleted, project_user_invite_accepted,
    project_user_invite_created, project_user_invite_deleted, transfer_plan, users_query,
    AcceptUserInviteCmd, CreateCmd, CreateSecretCmd, CreateUserInviteCmd, DeleteCmd,
    DeleteSecretCmd, DeleteUserCmd, DeleteUserInviteCmd, FetchByIdCmd, FetchByNamespaceCmd,
    FetchCmd, FetchMeUserCmd, FetchSecretCmd, FetchUserCmd, FetchUserInviteCmd,
    ResendUserInviteCmd, UpdateCmd, accept_invite_step, create_secret_step, AcceptAction,
    AcceptProgress, SecretAction, SecretProgress, transfer_step, TransferAction, TransferProgress,
    invite_step, InviteAction, InviteProgress,
};
use fabric::domain::project::{
    Project, ProjectSecret, ProjectStatus, ProjectUser, ProjectUserInvite,
    ProjectUserInviteStatus, ProjectUserRole,
};
use fabric::domain::event::ProjectCreated;

const KEY: &str = "dmtr_apikey1g9gyswtcf3zxwd26v4x5jj3jw5wx3sn2";
const PHC: &str = "$argon2id$v=19$m=19456,t=2,p=1$xVIt6Wr/bm1FewVhTr6zgA$nTO6EgGeOYZe7thACrHmFUWND40U4GEQCXKyvqzvRvs";
const SECRET: &str = "fabric@txpipe";
const INVALID_KEY: &str = "dmtr_apikey1xe6xzcjxv9nhycnz2ffnq6m02y7nat9e";
const INVALID_HRP_KEY: &str = "dmtr_test18pp5vkjzfuuyzwpeg9gk2a2zvsylc5wg";

fn user(id: &str) -> Credential {
    Credential::Auth0(id.to_string())
}

fn project(owner: &str) -> Project {
    Project {
        id: "project id".into(),
        name: "New Project".into(),
        namespace: "sonic-vegas".into(),
        owner: owner.into(),
        status: ProjectStatus::Active,
        billing_provider: "stripe".into(),
        billing_provider_id: "stripe id".into(),
        billing_subscription_id: None,
        created_at: 10,
        updated_at: 10,
    }
}

fn member(user_id: &str, role: ProjectUserRole) -> ProjectUser {
    ProjectUser {
        user_id: user_id.into(),
        project_id: "project id".into(),
        role,
        created_at: 5,
    }
}

fn invite(status: ProjectUserInviteStatus, expires_in: i128) -> ProjectUserInvite {
    ProjectUserInvite {
        id: "invite id".into(),
        project_id: "project id".into(),
        email: "p@txpipe.io".into(),
        code: "123".into(),
        role: ProjectUserRole::Owner,
        status,
        expires_in,
        created_at: 1,
        updated_at: 1,
    }
}

fn secret(phc: &str, secret: &str) -> ProjectSecret {
    ProjectSecret {
        id: "secret id".into(),
        project_id: "project id".into(),
        name: "Key 1".into(),
        phc: phc.into(),
        secret: secret.as_bytes().to_vec(),
        created_at: 1,
    }
}

fn message(e: &Error) -> String {
    e.to_string()
}

#[test]
fn status_texts_read_back() {
    for s in [ProjectStatus::Active, ProjectStatus::Deleted, ProjectStatus::PaymentMethodFailed] {
        assert_eq!(ProjectStatus::from_str(&s.to_string()).unwrap(), s);
    }
    assert_eq!(ProjectStatus::Active.to_string(), "active");
    assert_eq!(ProjectStatus::PaymentMethodFailed.to_string(), "pm-failed");
    assert_eq!(ProjectStatus::from_str("dcu-consumed").unwrap(), ProjectStatus::Active);
    let e = ProjectStatus::from_str("frozen").unwrap_err();
    assert!(matches!(e, Error::Unexpected(_)));
    assert_eq!(message(&e), "project status not supported: frozen");
}

#[test]
fn roles_and_invite_statuses_read_back() {
    for r in [ProjectUserRole::Owner, ProjectUserRole::Member] {
        assert_eq!(ProjectUserRole::from_str(&r.to_string()).unwrap(), r);
    }
    assert_eq!(ProjectUserRole::Member.to_string(), "member");
    assert_eq!(message(&ProjectUserRole::from_str("admin").unwrap_err()), "project user role not supported: admin");
    for s in [ProjectUserInviteStatus::Sent, ProjectUserInviteStatus::Accepted] {
        assert_eq!(ProjectUserInviteStatus::from_str(&s.to_string()).unwrap(), s);
    }
    assert_eq!(
        message(&ProjectUserInviteStatus::from_str("gone").unwrap_err()),
        "project user invite status not supported: gone"
    );
}

#[test]
fn project_from_created_event() {
    let evt = ProjectCreated {
        id: "id".into(),
        name: "n".into(),
        namespace: "ns".into(),
        owner: "o".into(),
        status: "pm-failed".into(),
        billing_provider: "stripe".into(),
        billing_provider_id: "cus".into(),
        billing_subscription_id: Some("sub".into()),
        created_at: 3,
        updated_at: 4,
    };
    let p = Project::try_from(evt.clone()).unwrap();
    assert_eq!(p.status, ProjectStatus::PaymentMethodFailed);
    assert_eq!(p.namespace, "ns");
    assert_eq!(p.billing_subscription_id.as_deref(), Some("sub"));
    assert_eq!(p.updated_at, 4);
    let mut bad = evt;
    bad.status = "nope".into();
    assert!(Project::try_from(bad).is_err());
}

#[test]
fn owner_role_is_required_when_asked() {
    let cred = user("user id");
    assert!(assert_permission(&cred, "project id", None, &Some(member("user id", ProjectUserRole::Member))).is_ok());
    assert!(assert_permission(&cred, "project id", Some(ProjectUserRole::Owner), &Some(member("user id", ProjectUserRole::Owner))).is_ok());
    let e = assert_permission(&cred, "project id", Some(ProjectUserRole::Owner), &Some(member("user id", ProjectUserRole::Member))).unwrap_err();
    assert!(matches!(e, Error::Unauthorized(_)));
    assert_eq!(message(&e), "user doesnt have permission");
    let e = assert_permission(&cred, "project id", None, &None).unwrap_err();
    assert_eq!(message(&e), "user doesnt have permission");
}

#[test]
fn api_key_acts_only_on_its_project() {
    let key = Credential::ApiKey("project id".into());
    assert!(assert_permission(&key, "project id", Some(ProjectUserRole::Owner), &None).is_ok());
    let e = assert_permission(&key, "other project", None, &None).unwrap_err();
    assert!(matches!(e, Error::Unauthorized(_)));
    assert_eq!(message(&e), "secret doesnt have permission");
    assert!(permission_lookup(&key).is_none());
    assert_eq!(permission_lookup(&user("u")).as_deref(), Some("u"));
}

#[test]
fn project_rpc_refuses_api_keys() {
    assert_eq!(assert_credential(&user("user id")).unwrap(), "user id");
    let e = assert_credential(&Credential::ApiKey("p".into())).unwrap_err();
    assert!(matches!(e, Error::Unauthorized(_)));
    assert_eq!(message(&e), "project rpc doesnt support secret");
}

#[test]
fn paging_defaults_and_limit() {
    assert_eq!(page_of(None, None).unwrap(), (1, 12));
    assert_eq!(page_of(Some(3), Some(119)).unwrap(), (3, 119));
    let e = page_of(Some(1), Some(120)).unwrap_err();
    assert!(matches!(e, Error::CommandMalformed(_)));
    assert_eq!(message(&e), "page_size exceeded the limit of 120");
    let c = FetchCmd::new(user("u"), None, Some(50)).unwrap();
    assert_eq!((c.page, c.page_size), (1, 50));
    assert!(FetchUserCmd::new(user("u"), None, Some(200), "p".into()).is_err());
    let c = FetchUserInviteCmd::new(user("u"), Some(2), None, "p".into()).unwrap();
    assert_eq!((c.page, c.page_size, c.project_id.as_str()), (2, 12, "p"));
}

#[test]
fn command_constructors_keep_their_arguments() {
    let words = vec!["sonic".to_string()];
    let nouns = vec!["vegas".to_string()];
    let c = CreateCmd::new(user("u"), "My project".into(), &words, &nouns);
    assert_eq!(c.name, "My project");
    assert_eq!(c.id.len(), 36);
    assert!(c.namespace.starts_with("sonic-vegas-"));
    assert_eq!(c.namespace.len(), "sonic-vegas-".len() + 6);
    let s = CreateSecretCmd::new(user("u"), "s".into(), "p".into(), "n".into());
    assert_eq!(s.id.len(), 36);
    assert_eq!(s.project_id, "p");
    let i = CreateUserInviteCmd::try_new(user("u"), Duration::from_secs(60), "p".into(), "e@x".into(), ProjectUserRole::Member).unwrap();
    assert_eq!(i.id.len(), 36);
    assert_eq!(i.role, ProjectUserRole::Member);
    assert_eq!(FetchByIdCmd::new(user("u"), "x".into()).id, "x");
    assert_eq!(FetchByNamespaceCmd::new(user("u"), "ns".into()).namespace, "ns");
    assert_eq!(UpdateCmd::new(user("u"), "x".into(), "n".into()).name, "n");
    assert_eq!(DeleteCmd::new(user("u"), "x".into()).id, "x");
    assert_eq!(FetchSecretCmd::new(user("u"), "p".into()).project_id, "p");
    assert_eq!(DeleteSecretCmd::new(user("u"), "s".into()).id, "s");
    assert_eq!(FetchMeUserCmd::new(user("u"), "p".into()).unwrap().project_id, "p");
    assert_eq!(DeleteUserCmd::new(user("u"), "p".into(), "m".into()).id, "m");
    assert_eq!(AcceptUserInviteCmd::new(user("u"), "123".into()).code, "123");
    assert_eq!(ResendUserInviteCmd::new(user("u"), "i".into()).id, "i");
    assert_eq!(DeleteUserInviteCmd::new(user("u"), "i".into()).id, "i");
}

#[test]
fn project_creation_rules() {
    assert!(check_namespace_free(&None).is_ok());
    let e = check_namespace_free(&Some(project("o"))).unwrap_err();
    assert_eq!(message(&e), "invalid project namespace");
    let cmd = CreateCmd { credential: user("u"), id: "id".into(), name: "New".into(), namespace: "sonic-vegas".into() };
    let evt = project_created(&cmd, "u", "cus_1".into(), 77);
    assert_eq!(evt.status, "active");
    assert_eq!(evt.billing_provider, "stripe");
    assert_eq!(evt.billing_provider_id, "cus_1");
    assert_eq!(evt.owner, "u");
    assert_eq!((evt.created_at, evt.updated_at), (77, 77));
    assert!(evt.billing_subscription_id.is_none());
    let p = Project::try_from(evt).unwrap();
    assert_eq!(p.status, ProjectStatus::Active);
    let upd = project_updated(&UpdateCmd::new(user("u"), "id".into(), "Other".into()), 9);
    assert_eq!(upd.name.as_deref(), Some("Other"));
    assert!(upd.status.is_none());
}

#[test]
fn ownership_transfer_rules() {
    let e = check_transfer_project(None, "new").unwrap_err();
    assert_eq!(message(&e), "invalid project id");
    let e = check_transfer_project(Some(project("user id")), "user id").unwrap_err();
    assert_eq!(message(&e), "user already is the project owner");
    assert!(check_transfer_project(Some(project("user id")), "member user id").is_ok());
    let e = check_new_owner_member(&None).unwrap_err();
    assert_eq!(message(&e), "new owner is not a member of the project");
    assert!(check_new_owner_member(&Some(member("m", ProjectUserRole::Member))).is_ok());
    let evt = project_owner_changed("e".into(), &project("user id"), "member user id", "backoffice", 3);
    assert_eq!(evt.previous_owner, "user id");
    assert_eq!(evt.new_owner, "member user id");
    assert_eq!(evt.changed_by, "backoffice");
    let plan = transfer_plan(true, true);
    assert!(!plan.dispatch && !plan.update_stripe);
    let plan = transfer_plan(false, false);
    assert!(plan.dispatch && !plan.update_stripe);
    let plan = transfer_plan(false, true);
    assert!(plan.dispatch && plan.update_stripe);
}

#[test]
fn only_the_creator_deletes_a_project() {
    let e = check_project_deletion("user id", None).unwrap_err();
    assert!(matches!(e, Error::Unexpected(_)));
    assert_eq!(message(&e), "Failed to locate project.");
    let e = check_project_deletion("someone", Some(project("user id"))).unwrap_err();
    assert_eq!(message(&e), "Just the creator can delete the project");
    let p = check_project_deletion("user id", Some(project("user id"))).unwrap();
    let evt = project_deleted("pid".into(), &p, 12);
    assert_eq!(evt.namespace, "sonic-vegas");
    assert_eq!(evt.id, "pid");
}

#[test]
fn secret_limit() {
    assert!(check_secret_capacity(0).is_ok());
    assert!(check_secret_capacity(1).is_ok());
    let e = check_secret_capacity(2).unwrap_err();
    assert!(matches!(e, Error::SecretExceeded(_)));
    assert_eq!(message(&e), "secrets exceeded the limit of 2");
}

#[test]
fn known_key_verifies_against_its_secret() {
    let raw = decode_api_key(KEY).unwrap();
    let found = find_verified_secret(vec![secret(PHC, SECRET)], &raw).unwrap();
    assert_eq!(found.phc, PHC);
}

#[test]
fn wrong_keys_are_refused() {
    let raw = decode_api_key(INVALID_KEY).unwrap();
    let e = find_verified_secret(vec![secret(PHC, SECRET)], &raw).unwrap_err();
    assert!(matches!(e, Error::Unauthorized(_)));
    assert_eq!(message(&e), "invalid project secret");
    let e = decode_api_key(INVALID_HRP_KEY).unwrap_err();
    assert_eq!(message(&e), "invalid project secret");
    let e = decode_api_key("dmtr_apikey1xxxx").unwrap_err();
    assert_eq!(message(&e), "invalid bech32");
    let raw = decode_api_key(KEY).unwrap();
    assert!(find_verified_secret(vec![], &raw).is_err());
}

#[test]
fn issued_key_verifies_and_others_do_not() {
    let k = generate_secret_key(&SECRET.as_bytes().to_vec()).unwrap();
    assert!(k.key.starts_with("dmtr_apikey1"));
    assert_eq!(k.key.len(), 44);
    assert!(generate_secret_key(&Vec::new()).is_ok());
    let raw = decode_api_key(&k.key).unwrap();
    assert_eq!(raw.len(), 16);
    assert!(raw.iter().all(|b| b.is_ascii_alphanumeric()));
    let stored = vec![secret(PHC, SECRET), secret(&k.phc, SECRET)];
    let found = find_verified_secret(stored, &raw).unwrap();
    assert_eq!(found.phc, k.phc);
    assert!(find_verified_secret(vec![secret(&k.phc, "another secret")], &raw).is_err());
    let evt = project_secret_created("s".into(), "p".into(), "Key 1".into(), k.phc.clone(), SECRET.as_bytes().to_vec(), 4);
    assert_eq!(evt.secret, SECRET.as_bytes());
    let del = project_secret_deleted(&secret(PHC, SECRET), "u".into(), 5);
    assert_eq!(del.id, "secret id");
    assert_eq!(del.deleted_by, "u");
}

#[test]
fn users_query_and_profiles() {
    assert!(users_query(&vec![]).is_none());
    let users = vec![member("a", ProjectUserRole::Owner), member("b", ProjectUserRole::Member)];
    assert_eq!(users_query(&users).unwrap(), "user_id:a OR user_id:b");
    assert_eq!(users_query(&users[..1].to_vec()).unwrap(), "user_id:a");
    let profiles = vec![
        Auth0Profile { user_id: "b".into(), name: "Bea".into(), email: "b@x".into() },
        Auth0Profile { user_id: "b".into(), name: "Other".into(), email: "o@x".into() },
    ];
    let agg = aggregate_users(&users, &profiles);
    assert_eq!(agg.len(), 2);
    assert_eq!((agg[0].name.as_str(), agg[0].email.as_str()), ("unknown", "unknown"));
    assert_eq!((agg[1].name.as_str(), agg[1].email.as_str()), ("Bea", "b@x"));
    assert_eq!(agg[1].role, ProjectUserRole::Member);
    let me = me_user(member("b", ProjectUserRole::Member), &profiles[0]);
    assert_eq!(me.email, "b@x");
    assert_eq!(user_id_query("abc"), "user_id:abc");
    assert_eq!(first_profile(profiles.clone()).unwrap().name, "Bea");
    assert_eq!(message(&first_profile(vec![]).unwrap_err()), "Invalid user_id");
}

#[test]
fn member_removal_rules() {
    assert_eq!(message(&check_user_deletion(None, "m").unwrap_err()), "invalid project id");
    assert_eq!(message(&check_user_deletion(Some(project("o")), "o").unwrap_err()), "owner can not be deleted");
    let p = check_user_deletion(Some(project("o")), "m").unwrap();
    let evt = project_user_deleted("e".into(), &p, &member("m", ProjectUserRole::Member), "o".into(), 8);
    assert_eq!(evt.role, "member");
    assert_eq!(evt.user_id, "m");
}

#[test]
fn invite_rules() {
    assert_eq!(invite_expires_in(1_000, Duration::from_secs(15 * 60)), Some(1_000 + 900_000_000_000));
    assert_eq!(invite_expires_in(7, Duration::from_nanos(5)), Some(12));
    assert_eq!(invite_expires_in(i128::MAX - 5, Duration::from_nanos(6)), None);
    assert_eq!(invite_expires_in(i128::MIN, Duration::from_nanos(10)), Some(i128::MIN + 10));
    let evt = project_user_invite_created("i".into(), "p".into(), "e@x".into(), ProjectUserRole::Owner, "code".into(), 99, 1);
    assert_eq!(evt.role, "owner");
    let inv = ProjectUserInvite::try_from(evt).unwrap();
    assert_eq!(inv.status, ProjectUserInviteStatus::Sent);
    assert_eq!(inv.updated_at, 1);
    assert!(check_invite_fresh(99, &inv).is_ok());
    assert_eq!(message(&check_invite_fresh(100, &inv).unwrap_err()), "invite code expired");
    assert_eq!(message(&check_not_member(&Some(member("u", ProjectUserRole::Member))).unwrap_err()), "user already is in the project");
    assert!(check_not_member(&None).is_ok());
    assert!(check_invite_sent(&invite(ProjectUserInviteStatus::Sent, 5)).is_ok());
    assert_eq!(message(&check_invite_sent(&invite(ProjectUserInviteStatus::Accepted, 5)).unwrap_err()), "invite is not available anymore");
    let p = Auth0Profile { user_id: "u".into(), name: "n".into(), email: "x@y".into() };
    assert_eq!(message(&check_invite_email(&invite(ProjectUserInviteStatus::Sent, 5), &p).unwrap_err()), "user email doesnt match with invite");
    let accepted = project_user_invite_accepted(&invite(ProjectUserInviteStatus::Sent, 5), "u".into(), 3);
    assert_eq!(accepted.role, "owner");
    assert_eq!(accepted.id, "invite id");
    let member = ProjectUser::try_from(accepted).unwrap();
    assert_eq!(member.role, ProjectUserRole::Owner);
    assert_eq!(message(&check_invite_not_accepted(&invite(ProjectUserInviteStatus::Accepted, 5)).unwrap_err()), "invite already accepted");
    let del = project_user_invite_deleted("i".into(), &invite(ProjectUserInviteStatus::Sent, 5), "u".into(), 2);
    assert_eq!(del.project_id, "project id");
}

#[test]
fn invite_acceptance_reads_and_checks_in_order() {
    let cmd = AcceptUserInviteCmd::new(user("user id"), "123".into());
    let mut progress = AcceptProgress::new();
    assert!(matches!(accept_invite_step(&cmd, 5, &progress), AcceptAction::FindInvite(c) if c == "123"));
    progress.invite = Some(None);
    match accept_invite_step(&cmd, 5, &progress) {
        AcceptAction::Refuse(e) => assert_eq!(message(&e), "invalid invite code"),
        _ => panic!("a missing invite is refused"),
    }
    progress.invite = Some(Some(invite(ProjectUserInviteStatus::Sent, 10)));
    match accept_invite_step(&cmd, 11, &progress) {
        AcceptAction::Refuse(e) => assert_eq!(message(&e), "invite code expired"),
        _ => panic!("an expired invite is refused before any other read"),
    }
    assert!(matches!(accept_invite_step(&cmd, 5, &progress), AcceptAction::FindPermission(u, p) if u == "user id" && p == "project id"));
    progress.permission = Some(None);
    assert!(matches!(accept_invite_step(&cmd, 5, &progress), AcceptAction::FindProfile(q) if q == "user_id:user id"));
    progress.profiles = Some(vec![Auth0Profile { user_id: "user id".into(), name: "P".into(), email: "p@txpipe.io".into() }]);
    match accept_invite_step(&cmd, 5, &progress) {
        AcceptAction::Dispatch(evt) => {
            assert_eq!(evt.id, "invite id");
            assert_eq!(evt.user_id, "user id");
            assert_eq!(evt.role, "owner");
            assert_eq!(evt.created_at, 5);
        }
        _ => panic!("a valid acceptance is dispatched"),
    }
    progress.profiles = Some(vec![]);
    match accept_invite_step(&cmd, 5, &progress) {
        AcceptAction::Refuse(e) => assert_eq!(message(&e), "Invalid user_id"),
        _ => panic!("a missing profile is refused"),
    }
    let key_cmd = AcceptUserInviteCmd::new(Credential::ApiKey("project id".into()), "123".into());
    assert!(matches!(accept_invite_step(&key_cmd, 5, &AcceptProgress::new()), AcceptAction::Refuse(Error::Unauthorized(_))));
}

#[test]
fn secret_creation_reads_and_checks_in_order() {
    let cmd = CreateSecretCmd::new(user("user id"), SECRET.into(), "project id".into(), "Key 1".into());
    let mut progress = SecretProgress::new();
    assert!(matches!(create_secret_step(&cmd, 7, &progress), SecretAction::FindPermission(u, p) if u == "user id" && p == "project id"));
    progress.permission = Some(Some(member("user id", ProjectUserRole::Member)));
    match create_secret_step(&cmd, 7, &progress) {
        SecretAction::Refuse(e) => assert_eq!(message(&e), "user doesnt have permission"),
        _ => panic!("a member that is not the owner is refused"),
    }
    progress.permission = Some(Some(member("user id", ProjectUserRole::Owner)));
    assert!(matches!(create_secret_step(&cmd, 7, &progress), SecretAction::FindProject(p) if p == "project id"));
    progress.project = Some(Some(project("user id")));
    assert!(matches!(create_secret_step(&cmd, 7, &progress), SecretAction::CountSecrets(p) if p == "project id"));
    progress.secrets = Some(2);
    assert!(matches!(create_secret_step(&cmd, 7, &progress), SecretAction::Refuse(Error::SecretExceeded(_))));
    progress.secrets = Some(0);
    match create_secret_step(&cmd, 7, &progress) {
        SecretAction::Dispatch(evt, key) => {
            assert_eq!(evt.project_id, "project id");
            assert_eq!(evt.secret, SECRET.as_bytes());
            assert_eq!(evt.created_at, 7);
            let raw = decode_api_key(&key).unwrap();
            let stored = secret(&evt.phc, SECRET);
            assert!(find_verified_secret(vec![stored], &raw).is_ok());
        }
        _ => panic!("a secret with room left is created"),
    }
}

#[test]
fn ownership_transfer_validates_before_any_effect() {
    let step = |dry_run: bool, stripe: bool, p: &TransferProgress| {
        transfer_step("project id", "new owner", "user id", dry_run, stripe, "evt", 9, p)
    };
    let mut progress = TransferProgress::new();
    assert!(matches!(step(false, true, &progress), TransferAction::FindProject(p) if p == "project id"));
    progress.project = Some(Some(project("new owner")));
    match step(false, true, &progress) {
        TransferAction::Refuse(e) => assert_eq!(message(&e), "user already is the project owner"),
        _ => panic!("the current owner is refused"),
    }
    progress.project = Some(Some(project("user id")));
    assert!(matches!(step(false, true, &progress), TransferAction::FindPermission(u, p) if u == "new owner" && p == "project id"));
    progress.permission = Some(None);
    match step(true, true, &progress) {
        TransferAction::Refuse(e) => assert_eq!(message(&e), "new owner is not a member of the project"),
        _ => panic!("a dry run still checks membership"),
    }
    progress.permission = Some(Some(member("new owner", ProjectUserRole::Member)));
    assert!(matches!(step(false, true, &progress), TransferAction::FindProfile(q) if q == "user_id:new owner"));
    progress.profiles = Some(vec![Auth0Profile { user_id: "new owner".into(), name: "N".into(), email: "n@txpipe.io".into() }]);
    assert!(matches!(step(true, true, &progress), TransferAction::Done));
    assert!(matches!(step(false, true, &progress), TransferAction::UpdateStripe(c, n, m) if c == "stripe id" && n == "N" && m == "n@txpipe.io"));
    progress.stripe_updated = true;
    match step(false, true, &progress) {
        TransferAction::Dispatch(evt) => {
            assert_eq!(evt.id, "evt");
            assert_eq!(evt.previous_owner, "user id");
            assert_eq!(evt.new_owner, "new owner");
            assert_eq!(evt.changed_at, 9);
        }
        _ => panic!("the transfer is dispatched after Stripe"),
    }
    progress.stripe_updated = false;
    assert!(matches!(step(false, false, &progress), TransferAction::Dispatch(_)));
}

#[test]
fn invite_mail_goes_out_before_the_event() {
    let ttl = Duration::from_secs(60);
    let step = |dry_run: bool, p: &InviteProgress| {
        invite_step("invite id", "project id", "p@txpipe.io", ProjectUserRole::Member, "code", ttl, dry_run, 1_000, p)
    };
    let mut progress = InviteProgress::new();
    assert!(matches!(step(false, &progress), InviteAction::FindProject(p) if p == "project id"));
    progress.project = Some(None);
    match step(true, &progress) {
        InviteAction::Refuse(e) => assert_eq!(message(&e), "invalid project id"),
        _ => panic!("a dry run still checks the project"),
    }
    progress.project = Some(Some(project("user id")));
    assert!(matches!(step(true, &progress), InviteAction::Done(e) if e == 1_000 + 60_000_000_000));
    match step(false, &progress) {
        InviteAction::SendEmail(name, to, code, e) => {
            assert_eq!((name.as_str(), to.as_str(), code.as_str()), ("New Project", "p@txpipe.io", "code"));
            assert_eq!(e, 1_000 + 60_000_000_000);
        }
        _ => panic!("the mail goes out first"),
    }
    progress.sent = Some(77);
    match step(false, &progress) {
        InviteAction::Dispatch(evt) => {
            assert_eq!(evt.expires_in, 77);
            assert_eq!(evt.code, "code");
            assert_eq!(evt.role, "member");
            assert_eq!(evt.created_at, 1_000);
        }
        _ => panic!("the event follows the mail"),
    }
    let huge = invite_step("i", "p", "e", ProjectUserRole::Member, "c", Duration::MAX, false, i128::MAX - 1, &InviteProgress { project: Some(Some(project("u"))), sent: None });
    assert!(matches!(huge, InviteAction::ExpiryOverflow));
}
