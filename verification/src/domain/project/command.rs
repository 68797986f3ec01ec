use vstd::prelude::*;
use vstd::utf8::encode_utf8;

use std::time::Duration;

use crate::domain::auth::{
    assert_permission, spec_permitted, user_id_query, Auth0Profile, Credential, UserId,
};
use crate::domain::crypto::{
    argon2_hash_phc, argon2_max_secret_len, argon2_verify, bech32_decode, bech32m_encode,
    generate_salt, is_alphanumeric_byte, random_alphanumeric, spec_argon2_phc, spec_argon2_verify,
    spec_base64_no_pad, spec_bech32_decode, spec_bech32m_encode, spec_hrp_valid, spec_no_upper,
};
use crate::domain::error::{
    is_malformed, is_secret_exceeded, is_unauthorized, is_unexpected, Error,
};
use crate::domain::event::{
    ProjectCreated, ProjectDeleted, ProjectOwnerChanged, ProjectSecretCreated,
    ProjectSecretDeleted, ProjectUpdated, ProjectUserDeleted, ProjectUserInviteAccepted,
    ProjectUserInviteCreated, ProjectUserInviteDeleted,
};
use crate::domain::utils::{get_random_name, is_random_name, is_uuid_v4_text, new_id, owned, str_eq};
use crate::domain::{MAX_SECRET, PAGE_SIZE_DEFAULT, PAGE_SIZE_MAX};

use super::{
    spec_project_status_text, spec_project_user_role_text, Project, ProjectSecret, ProjectStatus,
    ProjectUser, ProjectUserAggregated, ProjectUserInvite, ProjectUserInviteStatus,
    ProjectUserRole,
};

verus! {

/// The value of `opt`, or `default` when it is empty.
pub open spec fn spec_or<T>(opt: Option<T>, default: T) -> T {
    match opt {
        Some(x) => x,
        None => default,
    }
}

/// The user behind a credential, for commands that only users may run; an API key is refused
/// with `Unauthorized("project rpc doesnt support secret")`.
pub fn assert_credential(credential: &Credential) -> (r: Result<UserId, Error>)
    ensures
        match *credential {
            Credential::Auth0(u) => r == Ok::<UserId, Error>(u),
            Credential::ApiKey(_) => r matches Err(e) && is_unauthorized(
                e,
                "project rpc doesnt support secret"@,
            ),
        },
{
    match credential {
        Credential::Auth0(user_id) => Ok(user_id.clone()),
        Credential::ApiKey(_) => Err(Error::Unauthorized(owned("project rpc doesnt support secret"))),
    }
}

/// Page and page size of a listing: page 1 and `PAGE_SIZE_DEFAULT` when not given; a page size
/// of `PAGE_SIZE_MAX` or more is refused with
/// `CommandMalformed("page_size exceeded the limit of 120")`.
pub fn page_of(page: Option<u32>, page_size: Option<u32>) -> (r: Result<(u32, u32), Error>)
    ensures
        spec_or(page_size, PAGE_SIZE_DEFAULT) < PAGE_SIZE_MAX ==> r == Ok::<(u32, u32), Error>(
            (spec_or(page, 1u32), spec_or(page_size, PAGE_SIZE_DEFAULT)),
        ),
        spec_or(page_size, PAGE_SIZE_DEFAULT) >= PAGE_SIZE_MAX ==> (r matches Err(e)
            && is_malformed(e, "page_size exceeded the limit of 120"@)),
{
    let page = match page {
        Some(p) => p,
        None => 1,
    };
    let page_size = match page_size {
        Some(p) => p,
        None => PAGE_SIZE_DEFAULT,
    };
    if page_size >= PAGE_SIZE_MAX {
        return Err(Error::CommandMalformed(owned("page_size exceeded the limit of 120")));
    }
    Ok((page, page_size))
}

// ---------------------------------------------------------------------------------------------
// commands

#[derive(Debug, Clone)]
pub struct FetchCmd {
    pub credential: Credential,
    pub page: u32,
    pub page_size: u32,
}

impl FetchCmd {
    /// A listing of the caller's projects (see `page_of` for the paging rules).
    pub fn new(credential: Credential, page: Option<u32>, page_size: Option<u32>) -> (r: Result<
        Self,
        Error,
    >)
        ensures
            (r is Ok) <==> (spec_or(page_size, PAGE_SIZE_DEFAULT) < PAGE_SIZE_MAX),
            r matches Ok(c) ==> (c.credential == credential && c.page == spec_or(page, 1u32)
                && c.page_size == spec_or(page_size, PAGE_SIZE_DEFAULT)),
            r matches Err(e) ==> is_malformed(e, "page_size exceeded the limit of 120"@),
    {
        let (page, page_size) = page_of(page, page_size)?;
        Ok(FetchCmd { credential, page, page_size })
    }
}

#[derive(Debug, Clone)]
pub struct FetchByIdCmd {
    pub credential: Credential,
    pub id: String,
}

impl FetchByIdCmd {
    pub fn new(credential: Credential, id: String) -> (r: Self)
        ensures
            r.credential == credential,
            r.id == id,
    {
        FetchByIdCmd { credential, id }
    }
}

#[derive(Debug, Clone)]
pub struct FetchByNamespaceCmd {
    pub credential: Credential,
    pub namespace: String,
}

impl FetchByNamespaceCmd {
    pub fn new(credential: Credential, namespace: String) -> (r: Self)
        ensures
            r.credential == credential,
            r.namespace == namespace,
    {
        FetchByNamespaceCmd { credential, namespace }
    }
}

#[derive(Debug, Clone)]
pub struct CreateCmd {
    pub credential: Credential,
    pub id: String,
    pub name: String,
    pub namespace: String,
}

impl CreateCmd {
    /// A project creation with a fresh id and a random namespace `adjective-noun-salt` drawn from
    /// the given word lists.
    pub fn new(
        credential: Credential,
        name: String,
        adjectives: &Vec<String>,
        nouns: &Vec<String>,
    ) -> (r: Self)
        requires
            adjectives.len() > 0,
            nouns.len() > 0,
        ensures
            r.credential == credential,
            r.name == name,
            is_uuid_v4_text(r.id@),
            is_random_name(r.namespace@, adjectives@, nouns@),
    {
        let id = new_id();
        let namespace = get_random_name(adjectives, nouns);
        CreateCmd { credential, id, name, namespace }
    }
}

#[derive(Debug, Clone)]
pub struct UpdateCmd {
    pub credential: Credential,
    pub id: String,
    pub name: String,
}

impl UpdateCmd {
    pub fn new(credential: Credential, id: String, name: String) -> (r: Self)
        ensures
            r.credential == credential,
            r.id == id,
            r.name == name,
    {
        UpdateCmd { credential, id, name }
    }
}

#[derive(Debug, Clone)]
pub struct DeleteCmd {
    pub credential: Credential,
    pub id: String,
}

impl DeleteCmd {
    pub fn new(credential: Credential, id: String) -> (r: Self)
        ensures
            r.credential == credential,
            r.id == id,
    {
        DeleteCmd { credential, id }
    }
}

#[derive(Debug, Clone)]
pub struct FetchSecretCmd {
    pub credential: Credential,
    pub project_id: String,
}

impl FetchSecretCmd {
    pub fn new(credential: Credential, project_id: String) -> (r: Self)
        ensures
            r.credential == credential,
            r.project_id == project_id,
    {
        FetchSecretCmd { credential, project_id }
    }
}

#[derive(Debug, Clone)]
pub struct CreateSecretCmd {
    pub credential: Credential,
    pub secret: String,
    pub id: String,
    pub project_id: String,
    pub name: String,
}

impl CreateSecretCmd {
    /// A secret creation with a fresh id.
    pub fn new(credential: Credential, secret: String, project_id: String, name: String) -> (r:
        Self)
        ensures
            r.credential == credential,
            r.secret == secret,
            r.project_id == project_id,
            r.name == name,
            is_uuid_v4_text(r.id@),
    {
        let id = new_id();
        CreateSecretCmd { credential, secret, id, project_id, name }
    }
}

#[derive(Debug, Clone)]
pub struct VerifySecretCmd {
    pub project: String,
    pub key: String,
}

#[derive(Debug, Clone)]
pub struct DeleteSecretCmd {
    pub credential: Credential,
    pub id: String,
}

impl DeleteSecretCmd {
    pub fn new(credential: Credential, id: String) -> (r: Self)
        ensures
            r.credential == credential,
            r.id == id,
    {
        DeleteSecretCmd { credential, id }
    }
}

#[derive(Debug, Clone)]
pub struct FetchUserCmd {
    pub credential: Credential,
    pub page: u32,
    pub page_size: u32,
    pub project_id: String,
}

impl FetchUserCmd {
    /// A listing of a project's users (see `page_of` for the paging rules).
    pub fn new(
        credential: Credential,
        page: Option<u32>,
        page_size: Option<u32>,
        project_id: String,
    ) -> (r: Result<Self, Error>)
        ensures
            (r is Ok) <==> (spec_or(page_size, PAGE_SIZE_DEFAULT) < PAGE_SIZE_MAX),
            r matches Ok(c) ==> (c.credential == credential && c.page == spec_or(page, 1u32)
                && c.page_size == spec_or(page_size, PAGE_SIZE_DEFAULT) && c.project_id
                == project_id),
            r matches Err(e) ==> is_malformed(e, "page_size exceeded the limit of 120"@),
    {
        let (page, page_size) = page_of(page, page_size)?;
        Ok(FetchUserCmd { credential, page, page_size, project_id })
    }
}

#[derive(Debug, Clone)]
pub struct FetchMeUserCmd {
    pub credential: Credential,
    pub project_id: String,
}

impl FetchMeUserCmd {
    pub fn new(credential: Credential, project_id: String) -> (r: Result<Self, Error>)
        ensures
            r matches Ok(c) && c.credential == credential && c.project_id == project_id,
    {
        Ok(FetchMeUserCmd { credential, project_id })
    }
}

#[derive(Debug, Clone)]
pub struct TransferOwnershipCmd {
    pub credential: Credential,
    pub project_id: String,
    pub new_owner: String,
}

#[derive(Debug, Clone)]
pub struct DeleteUserCmd {
    pub credential: Credential,
    pub project_id: String,
    pub id: String,
}

impl DeleteUserCmd {
    pub fn new(credential: Credential, project_id: String, id: String) -> (r: Self)
        ensures
            r.credential == credential,
            r.project_id == project_id,
            r.id == id,
    {
        DeleteUserCmd { credential, project_id, id }
    }
}

#[derive(Debug, Clone)]
pub struct FetchUserInviteCmd {
    pub credential: Credential,
    pub page: u32,
    pub page_size: u32,
    pub project_id: String,
}

impl FetchUserInviteCmd {
    /// A listing of a project's invites (see `page_of` for the paging rules).
    pub fn new(
        credential: Credential,
        page: Option<u32>,
        page_size: Option<u32>,
        project_id: String,
    ) -> (r: Result<Self, Error>)
        ensures
            (r is Ok) <==> (spec_or(page_size, PAGE_SIZE_DEFAULT) < PAGE_SIZE_MAX),
            r matches Ok(c) ==> (c.credential == credential && c.page == spec_or(page, 1u32)
                && c.page_size == spec_or(page_size, PAGE_SIZE_DEFAULT) && c.project_id
                == project_id),
            r matches Err(e) ==> is_malformed(e, "page_size exceeded the limit of 120"@),
    {
        let (page, page_size) = page_of(page, page_size)?;
        Ok(FetchUserInviteCmd { credential, page, page_size, project_id })
    }
}

#[derive(Debug)]
pub struct CreateUserInviteCmd {
    pub credential: Credential,
    pub ttl: Duration,
    pub id: String,
    pub project_id: String,
    pub email: String,
    pub role: ProjectUserRole,
}

impl CreateUserInviteCmd {
    /// An invite creation with a fresh id.
    pub fn try_new(
        credential: Credential,
        ttl: Duration,
        project_id: String,
        email: String,
        role: ProjectUserRole,
    ) -> (r: Result<Self, Error>)
        ensures
            r matches Ok(c) && c.credential == credential && c.ttl == ttl && c.project_id
                == project_id && c.email == email && c.role == role && is_uuid_v4_text(c.id@),
    {
        let id = new_id();
        Ok(CreateUserInviteCmd { credential, ttl, id, project_id, email, role })
    }
}

#[derive(Debug, Clone)]
pub struct AcceptUserInviteCmd {
    pub credential: Credential,
    pub code: String,
}

impl AcceptUserInviteCmd {
    pub fn new(credential: Credential, code: String) -> (r: Self)
        ensures
            r.credential == credential,
            r.code == code,
    {
        AcceptUserInviteCmd { credential, code }
    }
}

#[derive(Debug, Clone)]
pub struct ResendUserInviteCmd {
    pub credential: Credential,
    pub id: String,
}

impl ResendUserInviteCmd {
    pub fn new(credential: Credential, id: String) -> (r: Self)
        ensures
            r.credential == credential,
            r.id == id,
    {
        ResendUserInviteCmd { credential, id }
    }
}

#[derive(Debug, Clone)]
pub struct DeleteUserInviteCmd {
    pub credential: Credential,
    pub id: String,
}

impl DeleteUserInviteCmd {
    pub fn new(credential: Credential, id: String) -> (r: Self)
        ensures
            r.credential == credential,
            r.id == id,
    {
        DeleteUserInviteCmd { credential, id }
    }
}

// ---------------------------------------------------------------------------------------------
// create

/// A new project may not take a namespace that another project holds; a taken namespace is
/// refused with `CommandMalformed("invalid project namespace")`.
pub fn check_namespace_free(existing: &Option<Project>) -> (r: Result<(), Error>)
    ensures
        (r is Ok) <==> (existing is None),
        r matches Err(e) ==> is_malformed(e, "invalid project namespace"@),
{
    if existing.is_some() {
        return Err(Error::CommandMalformed(owned("invalid project namespace")));
    }
    Ok(())
}

/// The event that records a new project: owned by the creator, active, billed through the
/// Stripe customer just created, with no subscription yet.
pub fn project_created(cmd: &CreateCmd, owner: &str, billing_provider_id: String, now: i128) -> (r:
    ProjectCreated)
    ensures
        r.id == cmd.id,
        r.namespace == cmd.namespace,
        r.name == cmd.name,
        r.owner@ == owner@,
        r.status@ == spec_project_status_text(ProjectStatus::Active),
        r.billing_provider@ == "stripe"@,
        r.billing_provider_id == billing_provider_id,
        r.billing_subscription_id is None,
        r.created_at == now,
        r.updated_at == now,
{
    ProjectCreated {
        id: cmd.id.clone(),
        namespace: cmd.namespace.clone(),
        name: cmd.name.clone(),
        owner: owned(owner),
        status: ProjectStatus::Active.to_string(),
        billing_provider: owned("stripe"),
        billing_provider_id,
        billing_subscription_id: None,
        created_at: now,
        updated_at: now,
    }
}

// ---------------------------------------------------------------------------------------------
// update

/// The event that renames a project, leaving its status alone.
pub fn project_updated(cmd: &UpdateCmd, now: i128) -> (r: ProjectUpdated)
    ensures
        r.id == cmd.id,
        r.name == Some(cmd.name),
        r.status is None,
        r.updated_at == now,
{
    ProjectUpdated { id: cmd.id.clone(), name: Some(cmd.name.clone()), status: None, updated_at: now }
}

// ---------------------------------------------------------------------------------------------
// ownership transfer

/// The project of an ownership transfer must exist (else `CommandMalformed("invalid project
/// id")`) and not already be owned by the new owner (else `CommandMalformed("user already is
/// the project owner")`).
pub fn check_transfer_project(project: Option<Project>, new_owner: &str) -> (r: Result<Project, Error>)
    ensures
        match project {
            None => r matches Err(e) && is_malformed(e, "invalid project id"@),
            Some(p) => if p.owner@ == new_owner@ {
                r matches Err(e) && is_malformed(e, "user already is the project owner"@)
            } else {
                r == Ok::<Project, Error>(p)
            },
        },
{
    match project {
        None => Err(Error::CommandMalformed(owned("invalid project id"))),
        Some(p) => {
            if str_eq(p.owner.as_str(), new_owner) {
                return Err(Error::CommandMalformed(owned("user already is the project owner")));
            }
            Ok(p)
        },
    }
}

/// The new owner must already be a member of the project; otherwise the transfer is refused
/// with `CommandMalformed("new owner is not a member of the project")`.
pub fn check_new_owner_member(permission: &Option<ProjectUser>) -> (r: Result<(), Error>)
    ensures
        (r is Ok) <==> (permission is Some),
        r matches Err(e) ==> is_malformed(e, "new owner is not a member of the project"@),
{
    if permission.is_none() {
        return Err(Error::CommandMalformed(owned("new owner is not a member of the project")));
    }
    Ok(())
}

/// The event that records an ownership transfer of `project` to `new_owner`, run by
/// `changed_by`.
pub fn project_owner_changed(
    id: String,
    project: &Project,
    new_owner: &str,
    changed_by: &str,
    now: i128,
) -> (r: ProjectOwnerChanged)
    ensures
        r.id == id,
        r.project_id == project.id,
        r.previous_owner == project.owner,
        r.new_owner@ == new_owner@,
        r.changed_by@ == changed_by@,
        r.changed_at == now,
{
    ProjectOwnerChanged {
        id,
        project_id: project.id.clone(),
        previous_owner: project.owner.clone(),
        new_owner: owned(new_owner),
        changed_by: owned(changed_by),
        changed_at: now,
    }
}

/// What a validated ownership transfer goes on to do. The Stripe customer is updated first and
/// the event dispatched after it.
#[derive(Debug, Clone, Copy, PartialEq, Eq, Structural)]
pub struct TransferPlan {
    /// Overwrite the Stripe customer's name and email with the new owner's.
    pub update_stripe: bool,
    /// Dispatch the ownership change event.
    pub dispatch: bool,
}

/// A dry run does nothing; otherwise the event is dispatched, and the Stripe customer is updated
/// only when the caller hands a Stripe driver.
pub fn transfer_plan(dry_run: bool, stripe_given: bool) -> (r: TransferPlan)
    ensures
        r.dispatch == !dry_run,
        r.update_stripe == (!dry_run && stripe_given),
{
    if dry_run {
        TransferPlan { update_stripe: false, dispatch: false }
    } else {
        TransferPlan { update_stripe: stripe_given, dispatch: true }
    }
}

// ---------------------------------------------------------------------------------------------
// delete

/// Only the owner who created a project may delete it: a missing project is
/// `Unexpected("Failed to locate project.")`, another user
/// `CommandMalformed("Just the creator can delete the project")`.
pub fn check_project_deletion(user_id: &str, project: Option<Project>) -> (r: Result<Project, Error>)
    ensures
        match project {
            None => r matches Err(e) && is_unexpected(e, "Failed to locate project."@),
            Some(p) => if p.owner@ != user_id@ {
                r matches Err(e) && is_malformed(e, "Just the creator can delete the project"@)
            } else {
                r == Ok::<Project, Error>(p)
            },
        },
{
    match project {
        None => Err(Error::Unexpected(owned("Failed to locate project."))),
        Some(p) => {
            if !str_eq(user_id, p.owner.as_str()) {
                return Err(
                    Error::CommandMalformed(owned("Just the creator can delete the project")),
                );
            }
            Ok(p)
        },
    }
}

/// The event that records the deletion of a project.
pub fn project_deleted(id: String, project: &Project, now: i128) -> (r: ProjectDeleted)
    ensures
        r.id == id,
        r.namespace == project.namespace,
        r.deleted_at == now,
{
    ProjectDeleted { id, namespace: project.namespace.clone(), deleted_at: now }
}

// ---------------------------------------------------------------------------------------------
// secrets

/// A project holds at most `MAX_SECRET` secrets; one more is refused with
/// `SecretExceeded("secrets exceeded the limit of 2")`.
pub fn check_secret_capacity(count: usize) -> (r: Result<(), Error>)
    ensures
        (r is Ok) <==> (count < MAX_SECRET),
        r matches Err(e) ==> is_secret_exceeded(e, "secrets exceeded the limit of 2"@),
{
    if count >= MAX_SECRET {
        return Err(Error::SecretExceeded(owned("secrets exceeded the limit of 2")));
    }
    Ok(())
}

/// The human readable part of every project API key.
pub open spec fn spec_api_key_hrp() -> Seq<char> {
    "dmtr_apikey"@
}

/// An API key handed out to a user, and the PHC string kept to check it later.
#[derive(Debug, Clone)]
pub struct SecretKey {
    pub key: String,
    pub phc: String,
}

/// `k` was issued under `secret`: its key is the bech32m encoding, under `dmtr_apikey`, of
/// sixteen random ASCII letters and digits, decoding it gives them back, and its PHC string is
/// their argon2 hash keyed with `secret`, which argon2 accepts for them.
pub open spec fn spec_issued_key(secret: Seq<u8>, k: SecretKey) -> bool {
    exists|raw: Seq<u8>, salt: Seq<char>|
        {
            &&& raw.len() == 16
            &&& (forall|i: int| 0 <= i < 16 ==> is_alphanumeric_byte(#[trigger] raw[i]))
            &&& k.key@ == spec_bech32m_encode(spec_api_key_hrp(), raw)
            &&& #[trigger] spec_bech32_decode(k.key@) == Some((spec_api_key_hrp(), raw))
            &&& #[trigger] spec_argon2_phc(secret, raw, salt) == k.phc@
            &&& spec_argon2_verify(secret, k.phc@, raw)
        }
}

proof fn lemma_api_key_hrp()
    ensures
        spec_hrp_valid(spec_api_key_hrp()),
        spec_no_upper(spec_api_key_hrp()),
        spec_api_key_hrp().len() == 11,
{
    reveal_strlit("dmtr_apikey");
    let h = spec_api_key_hrp();
    assert(h.len() == 11);
    assert(h[0] == 'd' && h[1] == 'm' && h[2] == 't' && h[3] == 'r' && h[4] == '_' && h[5] == 'a'
        && h[6] == 'p' && h[7] == 'i' && h[8] == 'k' && h[9] == 'e' && h[10] == 'y');
    assert(forall|i: int| 0 <= i < h.len() ==> 'A' as int > (#[trigger] h[i]) as int || (h[i] as int) > 'Z' as int);
    assert(!(exists|j: int| 0 <= j < h.len() && 'A' <= #[trigger] h[j] <= 'Z'));
}

/// Issues a new API key for a project whose secret is `secret`: sixteen random ASCII letters
/// and digits, hashed with argon2 keyed by the secret under a fresh random salt, and handed
/// out bech32m encoded under `dmtr_apikey`. A secret longer than argon2 accepts is refused with
/// `Unexpected("error to create the secret")`; a hashing failure is `Unexpected` with argon2's
/// message.
pub fn generate_secret_key(secret: &Vec<u8>) -> (r: Result<SecretKey, Error>)
    ensures
        secret@.len() > argon2_max_secret_len() ==> (r matches Err(e) && is_unexpected(
            e,
            "error to create the secret"@,
        )),
        secret@.len() <= argon2_max_secret_len() ==> r is Ok,
        r matches Ok(k) ==> spec_issued_key(secret@, k),
        r matches Err(e) ==> e is Unexpected,
{
    if secret.len() as u64 > 0xFFFF_FFFFu64 {
        return Err(Error::Unexpected(owned("error to create the secret")));
    }
    let raw = random_alphanumeric(16);
    let salt = generate_salt();
    proof {
        let b = choose|b: Seq<u8>| 16 <= b.len() <= 16 && salt@ == #[trigger] spec_base64_no_pad(b);
        assert(8 <= b.len() <= 48 && salt@ == spec_base64_no_pad(b));
    }
    let phc = match argon2_hash_phc(secret.as_slice(), raw.as_slice(), salt.as_str()) {
        Ok(phc) => phc,
        Err(m) => return Err(Error::Unexpected(m)),
    };
    proof {
        lemma_api_key_hrp();
    }
    let key = match bech32m_encode("dmtr_apikey", raw.as_slice()) {
        Ok(key) => key,
        Err(m) => return Err(Error::Unexpected(m)),
    };
    let k = SecretKey { key, phc };
    proof {
        assert(spec_bech32_decode(k.key@) == Some((spec_api_key_hrp(), raw@)));
        assert(spec_argon2_phc(secret@, raw@, salt@) == k.phc@);
    }
    Ok(k)
}

/// The event that records a new secret of a project.
pub fn project_secret_created(
    id: String,
    project_id: String,
    name: String,
    phc: String,
    secret: Vec<u8>,
    now: i128,
) -> (r: ProjectSecretCreated)
    ensures
        r.id == id,
        r.project_id == project_id,
        r.name == name,
        r.phc == phc,
        r.secret@ == secret@,
        r.created_at == now,
{
    ProjectSecretCreated { id, project_id, name, phc, secret, created_at: now }
}

/// The random part of an API key: the data of a bech32 string whose human readable part is
/// `dmtr_apikey`.
pub open spec fn spec_api_key_raw(key: Seq<char>) -> Option<Seq<u8>> {
    match spec_bech32_decode(key) {
        Some((h, d)) => if h == spec_api_key_hrp() {
            Some(d)
        } else {
            None
        },
        None => None,
    }
}

/// Reads an API key: text that is not bech32 is refused with `Unauthorized("invalid bech32")`,
/// another human readable part than `dmtr_apikey` with `Unauthorized("invalid project
/// secret")`.
pub fn decode_api_key(key: &str) -> (r: Result<Vec<u8>, Error>)
    ensures
        match spec_bech32_decode(key@) {
            None => r matches Err(e) && is_unauthorized(e, "invalid bech32"@),
            Some((h, d)) => if h == spec_api_key_hrp() {
                r matches Ok(raw) && raw@ == d
            } else {
                r matches Err(e) && is_unauthorized(e, "invalid project secret"@)
            },
        },
        r matches Ok(raw) ==> spec_api_key_raw(key@) == Some(raw@),
{
    match bech32_decode(key) {
        None => Err(Error::Unauthorized(owned("invalid bech32"))),
        Some((hrp, raw)) => {
            if !str_eq(hrp.as_str(), "dmtr_apikey") {
                return Err(Error::Unauthorized(owned("invalid project secret")));
            }
            Ok(raw)
        },
    }
}

/// Whether the secret `s` accepts the key data `raw`.
pub open spec fn spec_secret_accepts(s: ProjectSecret, raw: Seq<u8>) -> bool {
    spec_argon2_verify(s.secret@, s.phc@, raw)
}

/// The first of a project's secrets that accepts the key data `raw`; when none does, the key is
/// refused with `Unauthorized("invalid project secret")`.
pub fn find_verified_secret(secrets: Vec<ProjectSecret>, raw: &Vec<u8>) -> (r: Result<ProjectSecret, Error>)
    requires
        forall|i: int| 0 <= i < secrets.len() ==> (#[trigger] secrets[i]).secret@.len()
            <= argon2_max_secret_len(),
    ensures
        r matches Ok(s) ==> exists|i: int|
            0 <= i < secrets.len() && secrets[i] == s && spec_secret_accepts(
                #[trigger] secrets[i],
                raw@,
            ) && forall|j: int| 0 <= j < i ==> !spec_secret_accepts(#[trigger] secrets[j], raw@),
        (r is Err) <==> forall|i: int|
            0 <= i < secrets.len() ==> !spec_secret_accepts(#[trigger] secrets[i], raw@),
        r matches Err(e) ==> is_unauthorized(e, "invalid project secret"@),
{
    let n = secrets.len();
    let mut i: usize = 0;
    while i < n
        invariant
            n == secrets.len(),
            i <= n,
            forall|i: int| 0 <= i < secrets.len() ==> (#[trigger] secrets[i]).secret@.len()
                <= argon2_max_secret_len(),
            forall|j: int| 0 <= j < i ==> !spec_secret_accepts(#[trigger] secrets[j], raw@),
        decreases n - i,
    {
        let ok = argon2_verify(secrets[i].secret.as_slice(), secrets[i].phc.as_str(), raw.as_slice());
        if ok {
            let ghost old_secrets = secrets@;
            let mut secrets = secrets;
            let s = secrets.swap_remove(i);
            proof {
                assert(old_secrets[i as int] == s);
            }
            return Ok(s);
        }
        i = i + 1;
    }
    Err(Error::Unauthorized(owned("invalid project secret")))
}

/// A key issued under a project's secret is accepted by that secret: reading the key gives key
/// data, and the stored secret whose PHC string was issued with the key accepts that data. So
/// `find_verified_secret` finds a secret for it whenever the issuing secret is among those
/// searched.
pub proof fn lemma_issued_key_is_accepted(secret: Seq<u8>, k: SecretKey, stored: ProjectSecret)
    requires
        spec_issued_key(secret, k),
        stored.secret@ == secret,
        stored.phc@ == k.phc@,
    ensures
        spec_api_key_raw(k.key@) matches Some(raw) && spec_secret_accepts(stored, raw),
{
    let (raw, salt) = choose|raw: Seq<u8>, salt: Seq<char>|
        {
            &&& raw.len() == 16
            &&& (forall|i: int| 0 <= i < 16 ==> is_alphanumeric_byte(#[trigger] raw[i]))
            &&& k.key@ == spec_bech32m_encode(spec_api_key_hrp(), raw)
            &&& #[trigger] spec_bech32_decode(k.key@) == Some((spec_api_key_hrp(), raw))
            &&& #[trigger] spec_argon2_phc(secret, raw, salt) == k.phc@
            &&& spec_argon2_verify(secret, k.phc@, raw)
        };
    assert(spec_api_key_raw(k.key@) == Some(raw));
}

/// The event that records the deletion of a secret by `user_id`.
pub fn project_secret_deleted(secret: &ProjectSecret, user_id: String, now: i128) -> (r:
    ProjectSecretDeleted)
    ensures
        r.id == secret.id,
        r.deleted_by == user_id,
        r.deleted_at == now,
{
    ProjectSecretDeleted { id: secret.id.clone(), deleted_by: user_id, deleted_at: now }
}

// ---------------------------------------------------------------------------------------------
// users

/// The Auth0 search that finds the profiles of a page of users:
/// `user_id:<a> OR user_id:<b> OR ...`, in the order of the page.
pub open spec fn spec_users_query(users: Seq<ProjectUser>) -> Seq<char>
    decreases users.len(),
{
    if users.len() == 0 {
        seq![]
    } else if users.len() == 1 {
        "user_id:"@ + users[0].user_id@
    } else {
        spec_users_query(users.drop_last()) + " OR "@ + "user_id:"@ + users.last().user_id@
    }
}

/// Where the term of the `i`-th user starts in the search of a page: after the terms
/// `user_id:<id>` (eight characters and the id) of the users before it, each followed by the four
/// characters of `" OR "`.
pub open spec fn spec_term_offset(users: Seq<ProjectUser>, i: int) -> int
    decreases i,
{
    if i <= 0 {
        0
    } else {
        spec_term_offset(users, i - 1) + 8 + users[i - 1].user_id@.len() + 4
    }
}

proof fn lemma_term_offset_drop_last(users: Seq<ProjectUser>, i: int)
    requires
        0 <= i < users.len(),
    ensures
        spec_term_offset(users.drop_last(), i) == spec_term_offset(users, i),
    decreases i,
{
    if i > 0 {
        lemma_term_offset_drop_last(users, i - 1);
        assert(users.drop_last()[i - 1] == users[i - 1]);
    }
}

proof fn lemma_term_offset_mono(users: Seq<ProjectUser>, i: int, j: int)
    requires
        0 <= i <= j,
    ensures
        spec_term_offset(users, i) <= spec_term_offset(users, j),
    decreases j,
{
    if j > i {
        lemma_term_offset_mono(users, i, j - 1);
    }
}

proof fn lemma_subrange_of_prefix(p: Seq<char>, x: Seq<char>, a: int, b: int)
    requires
        0 <= a <= b <= p.len(),
    ensures
        (p + x).subrange(a, b) == p.subrange(a, b),
{
    assert((p + x).subrange(a, b) =~= p.subrange(a, b));
}

/// `q` names every user of the non-empty page `users`, in page order: the term `user_id:<id>` of
/// the `i`-th user stands at `spec_term_offset(users, i)`, the terms are separated by `" OR "`,
/// and nothing else is in `q`.
#[verifier::opaque]
pub open spec fn spec_names_page(q: Seq<char>, users: Seq<ProjectUser>) -> bool {
    let n = users.len() as int;
    &&& q.len() == spec_term_offset(users, n - 1) + 8 + users[n - 1].user_id@.len()
    &&& forall|i: int|
        0 <= i < n ==> q.subrange(
            spec_term_offset(users, i),
            spec_term_offset(users, i) + 8 + (#[trigger] users[i]).user_id@.len(),
        ) == "user_id:"@ + users[i].user_id@
    &&& forall|i: int|
        0 < i < n ==> q.subrange(spec_term_offset(users, i) - 4, #[trigger] spec_term_offset(users, i))
            == " OR "@
}

proof fn lemma_names_page_term_at(users: Seq<ProjectUser>, p: Seq<char>, q: Seq<char>, i: int)
    requires
        users.len() >= 2,
        0 <= i < users.len(),
        spec_names_page(p, users.drop_last()),
        q == p + (" OR "@ + ("user_id:"@ + users.last().user_id@)),
        " OR "@.len() == 4,
        "user_id:"@.len() == 8,
    ensures
        q.subrange(spec_term_offset(users, i), spec_term_offset(users, i) + 8 + users[i].user_id@.len())
            == "user_id:"@ + users[i].user_id@,
{
    reveal(spec_names_page);
    let n = users.len() as int;
    let v = users.drop_last();
    let t = "user_id:"@ + users[n - 1].user_id@;
    lemma_term_offset_drop_last(users, n - 2);
    assert(v[n - 2] == users[n - 2]);
    assert(p.len() == spec_term_offset(users, n - 2) + 8 + users[n - 2].user_id@.len());
    let a = spec_term_offset(users, i);
    let b = a + 8 + users[i].user_id@.len();
    lemma_term_offset_mono(users, 0, i);
    if i < n - 1 {
        lemma_term_offset_drop_last(users, i);
        assert(v[i] == users[i]);
        assert(p.subrange(spec_term_offset(v, i), spec_term_offset(v, i) + 8 + v[i].user_id@.len())
            == "user_id:"@ + v[i].user_id@);
        if i < n - 2 {
            lemma_term_offset_mono(users, i + 1, n - 2);
            assert(spec_term_offset(users, i + 1) == a + 8 + users[i].user_id@.len() + 4);
        }
        lemma_subrange_of_prefix(p, " OR "@ + t, a, b);
    } else {
        assert(spec_term_offset(users, n - 1) == spec_term_offset(users, n - 2) + 8 + users[n - 2].user_id@.len() + 4);
        assert(q.subrange(a, b) =~= t);
    }
}

proof fn lemma_names_page_sep_at(users: Seq<ProjectUser>, p: Seq<char>, q: Seq<char>, i: int)
    requires
        users.len() >= 2,
        0 < i < users.len(),
        spec_names_page(p, users.drop_last()),
        q == p + (" OR "@ + ("user_id:"@ + users.last().user_id@)),
        " OR "@.len() == 4,
        "user_id:"@.len() == 8,
    ensures
        q.subrange(spec_term_offset(users, i) - 4, spec_term_offset(users, i)) == " OR "@,
{
    reveal(spec_names_page);
    let n = users.len() as int;
    let v = users.drop_last();
    let t = "user_id:"@ + users[n - 1].user_id@;
    lemma_term_offset_drop_last(users, n - 2);
    assert(v[n - 2] == users[n - 2]);
    assert(p.len() == spec_term_offset(users, n - 2) + 8 + users[n - 2].user_id@.len());
    let b = spec_term_offset(users, i);
    lemma_term_offset_mono(users, 0, i - 1);
    if i < n - 1 {
        lemma_term_offset_drop_last(users, i);
        assert(p.subrange(spec_term_offset(v, i) - 4, spec_term_offset(v, i)) == " OR "@);
        lemma_term_offset_mono(users, i, n - 2);
        assert(spec_term_offset(users, i) == spec_term_offset(users, i - 1) + 8 + users[i - 1].user_id@.len() + 4);
        lemma_subrange_of_prefix(p, " OR "@ + t, b - 4, b);
    } else {
        assert(spec_term_offset(users, n - 1) == spec_term_offset(users, n - 2) + 8 + users[n - 2].user_id@.len() + 4);
        assert(q.subrange(b - 4, b) =~= " OR "@);
    }
}

proof fn lemma_names_page_extend(users: Seq<ProjectUser>, p: Seq<char>, q: Seq<char>)
    requires
        users.len() >= 2,
        spec_names_page(p, users.drop_last()),
        q == p + (" OR "@ + ("user_id:"@ + users.last().user_id@)),
        " OR "@.len() == 4,
        "user_id:"@.len() == 8,
    ensures
        spec_names_page(q, users),
{
    let n = users.len() as int;
    let v = users.drop_last();
    assert(p.len() == spec_term_offset(v, n - 2) + 8 + v[n - 2].user_id@.len()) by {
        reveal(spec_names_page);
    }
    lemma_term_offset_drop_last(users, n - 2);
    assert(v[n - 2] == users[n - 2]);
    assert(spec_term_offset(users, n - 1) == spec_term_offset(users, n - 2) + 8 + users[n - 2].user_id@.len() + 4);
    assert forall|i: int| 0 <= i < n implies q.subrange(
        spec_term_offset(users, i),
        spec_term_offset(users, i) + 8 + (#[trigger] users[i]).user_id@.len(),
    ) == "user_id:"@ + users[i].user_id@ by {
        lemma_names_page_term_at(users, p, q, i);
    }
    assert forall|i: int| 0 < i < n implies q.subrange(spec_term_offset(users, i) - 4, #[trigger] spec_term_offset(users, i))
        == " OR "@ by {
        lemma_names_page_sep_at(users, p, q, i);
    }
    reveal(spec_names_page);
}

/// The search of a non-empty page names every user of the page, in page order (see
/// `spec_names_page`).
pub proof fn lemma_users_query_terms(users: Seq<ProjectUser>)
    requires
        users.len() > 0,
    ensures
        spec_names_page(spec_users_query(users), users),
    decreases users.len(),
{
    reveal_strlit("user_id:");
    reveal_strlit(" OR ");
    let q = spec_users_query(users);
    let n = users.len() as int;
    if n == 1 {
        assert(q.subrange(0, q.len() as int) =~= q);
        reveal(spec_names_page);
    } else {
        let v = users.drop_last();
        lemma_users_query_terms(v);
        let p = spec_users_query(v);
        assert(q =~= p + (" OR "@ + ("user_id:"@ + users.last().user_id@)));
        lemma_names_page_extend(users, p, q);
    }
}

/// The Auth0 search for a page of users, or nothing for an empty page: an empty search would
/// not find nothing but every user of the tenant, so an empty page must not be searched.
pub fn users_query(users: &Vec<ProjectUser>) -> (r: Option<String>)
    ensures
        (r is None) <==> (users.len() == 0),
        r matches Some(q) ==> q@ == spec_users_query(users@),
        r matches Some(q) ==> spec_names_page(q@, users@),
{
    let n = users.len();
    if n == 0 {
        return None;
    }
    let mut q = owned("user_id:");
    q.append(users[0].user_id.as_str());
    proof {
        assert(users@.take(1).drop_last() =~= users@.take(0));
        assert(users@.take(1)[0] == users@[0]);
    }
    let mut i: usize = 1;
    while i < n
        invariant
            n == users.len(),
            1 <= i <= n,
            q@ == spec_users_query(users@.take(i as int)),
        decreases n - i,
    {
        let ghost before = q@;
        q.append(" OR ");
        q.append("user_id:");
        q.append(users[i].user_id.as_str());
        proof {
            let t = users@.take(i + 1);
            assert(t.drop_last() =~= users@.take(i as int));
            assert(t.last() == users@[i as int]);
            assert(q@ =~= before + " OR "@ + "user_id:"@ + users@[i as int].user_id@);
        }
        i = i + 1;
    }
    proof {
        assert(users@.take(n as int) =~= users@);
        lemma_users_query_terms(users@);
    }
    Some(q)
}

/// The first profile of `profiles` that belongs to `user_id`.
pub open spec fn spec_profile_for(profiles: Seq<Auth0Profile>, user_id: Seq<char>) -> Option<
    Auth0Profile,
>
    decreases profiles.len(),
{
    if profiles.len() == 0 {
        None
    } else if profiles[0].user_id@ == user_id {
        Some(profiles[0])
    } else {
        spec_profile_for(profiles.drop_first(), user_id)
    }
}

/// `a` is the member `u` with the name and email of its profile among `profiles`, or `unknown`
/// for both when none of them belongs to it.
pub open spec fn spec_aggregates(a: ProjectUserAggregated, u: ProjectUser, profiles: Seq<Auth0Profile>) -> bool {
    &&& a.user_id == u.user_id
    &&& a.project_id == u.project_id
    &&& a.role == u.role
    &&& a.created_at == u.created_at
    &&& match spec_profile_for(profiles, u.user_id@) {
        Some(p) => a.name@ == p.name@ && a.email@ == p.email@,
        None => a.name@ == "unknown"@ && a.email@ == "unknown"@,
    }
}

proof fn lemma_profile_for_skip(profiles: Seq<Auth0Profile>, user_id: Seq<char>, j: int)
    requires
        0 <= j < profiles.len(),
    ensures
        spec_profile_for(profiles.skip(j), user_id) == if profiles[j].user_id@ == user_id {
            Some(profiles[j])
        } else {
            spec_profile_for(profiles.skip(j + 1), user_id)
        },
{
    assert(profiles.skip(j).drop_first() =~= profiles.skip(j + 1));
    assert(profiles.skip(j)[0] == profiles[j]);
}

/// The profile of `user_id` among `profiles`, the first one when several match.
fn find_profile(profiles: &Vec<Auth0Profile>, user_id: &str) -> (r: Option<usize>)
    ensures
        match spec_profile_for(profiles@, user_id@) {
            None => r is None,
            Some(p) => r matches Some(j) && j < profiles.len() && profiles[j as int] == p,
        },
{
    let n = profiles.len();
    let mut j: usize = 0;
    proof {
        assert(profiles@.skip(0) =~= profiles@);
    }
    while j < n
        invariant
            n == profiles.len(),
            j <= n,
            spec_profile_for(profiles@, user_id@) == spec_profile_for(profiles@.skip(j as int), user_id@),
        decreases n - j,
    {
        proof {
            lemma_profile_for_skip(profiles@, user_id@, j as int);
        }
        if str_eq(profiles[j].user_id.as_str(), user_id) {
            return Some(j);
        }
        j = j + 1;
    }
    proof {
        assert(profiles@.skip(n as int) =~= Seq::<Auth0Profile>::empty());
    }
    None
}

/// A page of project members, each with the name and email of its Auth0 profile (the first
/// matching one), or `unknown` when Auth0 returned none for it.
pub fn aggregate_users(users: &Vec<ProjectUser>, profiles: &Vec<Auth0Profile>) -> (r: Vec<
    ProjectUserAggregated,
>)
    ensures
        r.len() == users.len(),
        forall|i: int| 0 <= i < users.len() ==> spec_aggregates(#[trigger] r[i], users[i], profiles@),
{
    let mut r: Vec<ProjectUserAggregated> = Vec::new();
    let n = users.len();
    let mut i: usize = 0;
    while i < n
        invariant
            n == users.len(),
            i <= n,
            r.len() == i,
            forall|k: int| 0 <= k < i ==> spec_aggregates(#[trigger] r[k], users[k], profiles@),
        decreases n - i,
    {
        let u = &users[i];
        let (name, email) = match find_profile(profiles, u.user_id.as_str()) {
            Some(j) => (profiles[j].name.clone(), profiles[j].email.clone()),
            None => (owned("unknown"), owned("unknown")),
        };
        let a = ProjectUserAggregated {
            user_id: u.user_id.clone(),
            project_id: u.project_id.clone(),
            name,
            email,
            role: u.role,
            created_at: u.created_at,
        };
        r.push(a);
        i = i + 1;
    }
    r
}

/// The caller's own membership of a project with the name and email of its profile.
pub fn me_user(project_user: ProjectUser, profile: &Auth0Profile) -> (r: ProjectUserAggregated)
    ensures
        r.user_id == project_user.user_id,
        r.project_id == project_user.project_id,
        r.name == profile.name,
        r.email == profile.email,
        r.role == project_user.role,
        r.created_at == project_user.created_at,
{
    ProjectUserAggregated {
        user_id: project_user.user_id,
        project_id: project_user.project_id,
        name: profile.name.clone(),
        email: profile.email.clone(),
        role: project_user.role,
        created_at: project_user.created_at,
    }
}

/// A member can be removed from an existing project (else `CommandMalformed("invalid project
/// id")`), but never its owner (`CommandMalformed("owner can not be deleted")`).
pub fn check_user_deletion(project: Option<Project>, user_id: &str) -> (r: Result<Project, Error>)
    ensures
        match project {
            None => r matches Err(e) && is_malformed(e, "invalid project id"@),
            Some(p) => if p.owner@ == user_id@ {
                r matches Err(e) && is_malformed(e, "owner can not be deleted"@)
            } else {
                r == Ok::<Project, Error>(p)
            },
        },
{
    match project {
        None => Err(Error::CommandMalformed(owned("invalid project id"))),
        Some(p) => {
            if str_eq(p.owner.as_str(), user_id) {
                return Err(Error::CommandMalformed(owned("owner can not be deleted")));
            }
            Ok(p)
        },
    }
}

/// The event that records the removal of a member, with the role it held.
pub fn project_user_deleted(
    id: String,
    project: &Project,
    permission: &ProjectUser,
    deleted_by: String,
    now: i128,
) -> (r: ProjectUserDeleted)
    ensures
        r.id == id,
        r.project_id == project.id,
        r.user_id == permission.user_id,
        r.role@ == spec_project_user_role_text(permission.role),
        r.deleted_by == deleted_by,
        r.deleted_at == now,
{
    ProjectUserDeleted {
        id,
        project_id: project.id.clone(),
        user_id: permission.user_id.clone(),
        role: permission.role.to_string(),
        deleted_by,
        deleted_at: now,
    }
}

// ---------------------------------------------------------------------------------------------
// invites

/// How long a duration is, in nanoseconds.
pub uninterp spec fn spec_duration_nanos(d: Duration) -> int;

/// Calls `Duration::as_nanos`. Claimed: the result is the length of the duration in
/// nanoseconds, named `spec_duration_nanos`.
#[verifier::external_body]
fn duration_as_nanos(d: Duration) -> (r: u128)
    ensures
        r as int == spec_duration_nanos(d),
{
    d.as_nanos()
}

/// When an invite sent at `now` with lifetime `ttl` expires, or nothing when that time does not
/// fit in an `i128` of nanoseconds.
pub fn invite_expires_in(now: i128, ttl: Duration) -> (r: Option<i128>)
    ensures
        now + spec_duration_nanos(ttl) <= i128::MAX ==> (r matches Some(e) && e == now
            + spec_duration_nanos(ttl)),
        now + spec_duration_nanos(ttl) > i128::MAX ==> r is None,
{
    let nanos = duration_as_nanos(ttl);
    if nanos > i128::MAX as u128 {
        if now >= 0 {
            return None;
        }
        let back: u128 = (-(now + 1)) as u128 + 1;
        let t: u128 = nanos - back;
        if t > i128::MAX as u128 {
            return None;
        }
        return Some(t as i128);
    }
    let n = nanos as i128;
    if now > i128::MAX - n {
        return None;
    }
    Some(now + n)
}

/// The event that records a sent invite.
pub fn project_user_invite_created(
    id: String,
    project_id: String,
    email: String,
    role: ProjectUserRole,
    code: String,
    expires_in: i128,
    now: i128,
) -> (r: ProjectUserInviteCreated)
    ensures
        r.id == id,
        r.project_id == project_id,
        r.email == email,
        r.role@ == spec_project_user_role_text(role),
        r.code == code,
        r.expires_in == expires_in,
        r.created_at == now,
{
    ProjectUserInviteCreated {
        id,
        project_id,
        email,
        role: role.to_string(),
        code,
        expires_in,
        created_at: now,
    }
}

/// What a validated invite goes on to do. The mail is sent before the event is dispatched.
#[derive(Debug, Clone, Copy, PartialEq, Eq, Structural)]
pub struct InvitePlan {
    /// Send the invite mail with its code.
    pub send_email: bool,
    /// Dispatch the invite event.
    pub dispatch: bool,
}

/// A dry run resolves the project but neither sends the mail, which cannot be recalled, nor
/// dispatches the event; otherwise both happen.
pub fn invite_plan(dry_run: bool) -> (r: InvitePlan)
    ensures
        r.send_email == !dry_run,
        r.dispatch == !dry_run,
{
    InvitePlan { send_email: !dry_run, dispatch: !dry_run }
}

/// An invite can be used until its expiry time; after it, it is refused with
/// `CommandMalformed("invite code expired")`.
pub fn check_invite_fresh(now: i128, invite: &ProjectUserInvite) -> (r: Result<(), Error>)
    ensures
        (r is Ok) <==> (now <= invite.expires_in),
        r matches Err(e) ==> is_malformed(e, "invite code expired"@),
{
    if now > invite.expires_in {
        return Err(Error::CommandMalformed(owned("invite code expired")));
    }
    Ok(())
}

/// A user who already belongs to the project cannot accept an invite to it
/// (`CommandMalformed("user already is in the project")`).
pub fn check_not_member(permission: &Option<ProjectUser>) -> (r: Result<(), Error>)
    ensures
        (r is Ok) <==> (permission is None),
        r matches Err(e) ==> is_malformed(e, "user already is in the project"@),
{
    if permission.is_some() {
        return Err(Error::CommandMalformed(owned("user already is in the project")));
    }
    Ok(())
}

/// Only a sent invite can be accepted; an accepted one is refused with
/// `CommandMalformed("invite is not available anymore")`.
pub fn check_invite_sent(invite: &ProjectUserInvite) -> (r: Result<(), Error>)
    ensures
        (r is Ok) <==> (invite.status == ProjectUserInviteStatus::Sent),
        r matches Err(e) ==> is_malformed(e, "invite is not available anymore"@),
{
    if invite.status != ProjectUserInviteStatus::Sent {
        return Err(Error::CommandMalformed(owned("invite is not available anymore")));
    }
    Ok(())
}

/// An invite can only be accepted by the user whose profile has the invited email
/// (else `CommandMalformed("user email doesnt match with invite")`).
pub fn check_invite_email(invite: &ProjectUserInvite, profile: &Auth0Profile) -> (r: Result<(), Error>)
    ensures
        (r is Ok) <==> (invite.email@ == profile.email@),
        r matches Err(e) ==> is_malformed(e, "user email doesnt match with invite"@),
{
    if invite.email != profile.email {
        return Err(Error::CommandMalformed(owned("user email doesnt match with invite")));
    }
    Ok(())
}

/// The event that records the acceptance of an invite by `user_id`, who joins with the invited
/// role.
pub fn project_user_invite_accepted(invite: &ProjectUserInvite, user_id: String, now: i128) -> (r:
    ProjectUserInviteAccepted)
    ensures
        r.id == invite.id,
        r.project_id == invite.project_id,
        r.user_id == user_id,
        r.role@ == spec_project_user_role_text(invite.role),
        r.created_at == now,
{
    ProjectUserInviteAccepted {
        id: invite.id.clone(),
        project_id: invite.project_id.clone(),
        user_id,
        role: invite.role.to_string(),
        created_at: now,
    }
}

/// An accepted invite can no longer be deleted (`CommandMalformed("invite already accepted")`).
pub fn check_invite_not_accepted(invite: &ProjectUserInvite) -> (r: Result<(), Error>)
    ensures
        (r is Ok) <==> (invite.status != ProjectUserInviteStatus::Accepted),
        r matches Err(e) ==> is_malformed(e, "invite already accepted"@),
{
    if invite.status == ProjectUserInviteStatus::Accepted {
        return Err(Error::CommandMalformed(owned("invite already accepted")));
    }
    Ok(())
}

/// The event that records the deletion of an invite by `deleted_by`.
pub fn project_user_invite_deleted(id: String, invite: &ProjectUserInvite, deleted_by: String, now: i128) -> (r:
    ProjectUserInviteDeleted)
    ensures
        r.id == id,
        r.project_id == invite.project_id,
        r.deleted_by == deleted_by,
        r.deleted_at == now,
{
    ProjectUserInviteDeleted {
        id,
        project_id: invite.project_id.clone(),
        deleted_by,
        deleted_at: now,
    }
}

/// What the acceptance of an invite has read so far; `None` is what has not been read yet.
#[derive(Debug, Clone)]
pub struct AcceptProgress {
    /// The invite found by its code.
    pub invite: Option<Option<ProjectUserInvite>>,
    /// The caller's membership of the invite's project.
    pub permission: Option<Option<ProjectUser>>,
    /// The Auth0 profiles found for the caller.
    pub profiles: Option<Vec<Auth0Profile>>,
}

impl AcceptProgress {
    /// Nothing read yet.
    pub fn new() -> (r: Self)
        ensures
            r.invite is None,
            r.permission is None,
            r.profiles is None,
    {
        AcceptProgress { invite: None, permission: None, profiles: None }
    }
}

/// The next thing the acceptance of an invite does.
#[derive(Debug)]
pub enum AcceptAction {
    /// Read the invite with this code.
    FindInvite(String),
    /// Read the membership of this user in this project.
    FindPermission(String, String),
    /// Search Auth0 with this query.
    FindProfile(String),
    /// Stop with this error; nothing has been changed.
    Refuse(Error),
    /// Dispatch this event, which ends the acceptance.
    Dispatch(ProjectUserInviteAccepted),
}

/// One step of the acceptance of an invite by the caller of `cmd` at time `now`, given what has
/// been read so far. The checks come in this order, each read only once the checks before it
/// passed: a user credential, an existing invite (`CommandMalformed("invalid invite code")`),
/// not expired, the caller not yet a member, the invite still sent, an Auth0 profile, the
/// profile's email the invited one. Only when all of them pass is the event dispatched.
pub fn accept_invite_step(cmd: &AcceptUserInviteCmd, now: i128, progress: &AcceptProgress) -> (r:
    AcceptAction)
    ensures
        match cmd.credential {
            Credential::ApiKey(_) => r matches AcceptAction::Refuse(e) && is_unauthorized(
                e,
                "project rpc doesnt support secret"@,
            ),
            Credential::Auth0(u) => match progress.invite {
                None => r matches AcceptAction::FindInvite(c) && c@ == cmd.code@,
                Some(None) => r matches AcceptAction::Refuse(e) && is_malformed(e, "invalid invite code"@),
                Some(Some(inv)) => if now > inv.expires_in {
                    r matches AcceptAction::Refuse(e) && is_malformed(e, "invite code expired"@)
                } else {
                    match progress.permission {
                        None => r matches AcceptAction::FindPermission(a, b) && a@ == u@ && b@
                            == inv.project_id@,
                        Some(Some(_)) => r matches AcceptAction::Refuse(e) && is_malformed(
                            e,
                            "user already is in the project"@,
                        ),
                        Some(None) => if inv.status != ProjectUserInviteStatus::Sent {
                            r matches AcceptAction::Refuse(e) && is_malformed(
                                e,
                                "invite is not available anymore"@,
                            )
                        } else {
                            match progress.profiles {
                                None => r matches AcceptAction::FindProfile(q) && q@ == "user_id:"@
                                    + u@,
                                Some(ps) => if ps.len() == 0 {
                                    r matches AcceptAction::Refuse(e) && is_unexpected(
                                        e,
                                        "Invalid user_id"@,
                                    )
                                } else if inv.email@ != ps[0].email@ {
                                    r matches AcceptAction::Refuse(e) && is_malformed(
                                        e,
                                        "user email doesnt match with invite"@,
                                    )
                                } else {
                                    r matches AcceptAction::Dispatch(evt) && evt.id == inv.id
                                        && evt.project_id == inv.project_id && evt.user_id == u
                                        && evt.role@ == spec_project_user_role_text(inv.role)
                                        && evt.created_at == now
                                },
                            }
                        },
                    }
                },
            },
        },
{
    let user_id = match assert_credential(&cmd.credential) {
        Ok(u) => u,
        Err(e) => return AcceptAction::Refuse(e),
    };
    let invite = match &progress.invite {
        None => return AcceptAction::FindInvite(cmd.code.clone()),
        Some(None) => return AcceptAction::Refuse(Error::CommandMalformed(owned("invalid invite code"))),
        Some(Some(inv)) => inv,
    };
    if let Err(e) = check_invite_fresh(now, invite) {
        return AcceptAction::Refuse(e);
    }
    match &progress.permission {
        None => return AcceptAction::FindPermission(user_id, invite.project_id.clone()),
        Some(permission) => {
            if let Err(e) = check_not_member(permission) {
                return AcceptAction::Refuse(e);
            }
        },
    }
    if let Err(e) = check_invite_sent(invite) {
        return AcceptAction::Refuse(e);
    }
    let profile = match &progress.profiles {
        None => return AcceptAction::FindProfile(user_id_query(user_id.as_str())),
        Some(ps) => {
            if ps.len() == 0 {
                return AcceptAction::Refuse(Error::Unexpected(owned("Invalid user_id")));
            }
            &ps[0]
        },
    };
    if let Err(e) = check_invite_email(invite, profile) {
        return AcceptAction::Refuse(e);
    }
    AcceptAction::Dispatch(project_user_invite_accepted(invite, user_id, now))
}

/// What the creation of a secret has read so far; `None` is what has not been read yet.
#[derive(Debug, Clone)]
pub struct SecretProgress {
    /// The caller's membership of the project.
    pub permission: Option<Option<ProjectUser>>,
    /// The project.
    pub project: Option<Option<Project>>,
    /// How many secrets the project holds.
    pub secrets: Option<usize>,
}

impl SecretProgress {
    /// Nothing read yet.
    pub fn new() -> (r: Self)
        ensures
            r.permission is None,
            r.project is None,
            r.secrets is None,
    {
        SecretProgress { permission: None, project: None, secrets: None }
    }
}

/// The next thing the creation of a secret does.
#[derive(Debug)]
pub enum SecretAction {
    /// Read the membership of this user in this project.
    FindPermission(String, String),
    /// Read the project with this id.
    FindProject(String),
    /// Count the secrets of the project with this id.
    CountSecrets(String),
    /// Stop with this error; nothing has been changed.
    Refuse(Error),
    /// Dispatch this event and hand out this API key, which ends the creation.
    Dispatch(ProjectSecretCreated, String),
}

/// One step of the creation of a secret by the caller of `cmd` at time `now`, given what has
/// been read so far. The checks come in this order, each read only once the checks before it
/// passed: a user credential, the owner's membership of the project, an existing project
/// (`CommandMalformed("invalid project id")`), room for one more secret. Only then is a key
/// issued under the secret's bytes and its event dispatched.
pub fn create_secret_step(cmd: &CreateSecretCmd, now: i128, progress: &SecretProgress) -> (r:
    SecretAction)
    ensures
        match cmd.credential {
            Credential::ApiKey(_) => r matches SecretAction::Refuse(e) && is_unauthorized(
                e,
                "project rpc doesnt support secret"@,
            ),
            Credential::Auth0(u) => match progress.permission {
                None => r matches SecretAction::FindPermission(a, b) && a@ == u@ && b@
                    == cmd.project_id@,
                Some(permission) => if !spec_permitted(
                    cmd.credential,
                    cmd.project_id@,
                    Some(ProjectUserRole::Owner),
                    permission,
                ) {
                    r matches SecretAction::Refuse(e) && is_unauthorized(
                        e,
                        "user doesnt have permission"@,
                    )
                } else {
                    match progress.project {
                        None => r matches SecretAction::FindProject(id) && id@ == cmd.project_id@,
                        Some(None) => r matches SecretAction::Refuse(e) && is_malformed(
                            e,
                            "invalid project id"@,
                        ),
                        Some(Some(p)) => match progress.secrets {
                            None => r matches SecretAction::CountSecrets(id) && id@
                                == cmd.project_id@,
                            Some(n) => if n >= MAX_SECRET {
                                r matches SecretAction::Refuse(e) && is_secret_exceeded(
                                    e,
                                    "secrets exceeded the limit of 2"@,
                                )
                            } else if encode_utf8(cmd.secret@).len()
                                > argon2_max_secret_len() {
                                r matches SecretAction::Refuse(e) && is_unexpected(
                                    e,
                                    "error to create the secret"@,
                                )
                            } else {
                                r matches SecretAction::Dispatch(evt, key) && evt.id == cmd.id
                                    && evt.project_id == p.id && evt.name == cmd.name
                                    && evt.secret@ == encode_utf8(cmd.secret@)
                                    && evt.created_at == now && spec_issued_key(
                                    evt.secret@,
                                    SecretKey { key, phc: evt.phc },
                                )
                            },
                        },
                    }
                },
            },
        },
{
    let user_id = match assert_credential(&cmd.credential) {
        Ok(u) => u,
        Err(e) => return SecretAction::Refuse(e),
    };
    match &progress.permission {
        None => return SecretAction::FindPermission(user_id, cmd.project_id.clone()),
        Some(permission) => {
            let owner = Some(ProjectUserRole::Owner);
            if let Err(e) = assert_permission(&cmd.credential, cmd.project_id.as_str(), owner, permission) {
                return SecretAction::Refuse(e);
            }
        },
    }
    let project = match &progress.project {
        None => return SecretAction::FindProject(cmd.project_id.clone()),
        Some(None) => return SecretAction::Refuse(Error::CommandMalformed(owned("invalid project id"))),
        Some(Some(p)) => p,
    };
    match progress.secrets {
        None => return SecretAction::CountSecrets(cmd.project_id.clone()),
        Some(n) => {
            if let Err(e) = check_secret_capacity(n) {
                return SecretAction::Refuse(e);
            }
        },
    }
    let secret = cmd.secret.as_str().as_bytes_vec();
    let key = match generate_secret_key(&secret) {
        Ok(k) => k,
        Err(e) => return SecretAction::Refuse(e),
    };
    let evt = project_secret_created(cmd.id.clone(), project.id.clone(), cmd.name.clone(), key.phc, secret, now);
    SecretAction::Dispatch(evt, key.key)
}

/// What an ownership transfer has read and done so far; `None` is what has not been read yet.
#[derive(Debug, Clone)]
pub struct TransferProgress {
    /// The project.
    pub project: Option<Option<Project>>,
    /// The new owner's membership of the project.
    pub permission: Option<Option<ProjectUser>>,
    /// The Auth0 profiles found for the new owner.
    pub profiles: Option<Vec<Auth0Profile>>,
    /// Whether the Stripe customer has been updated.
    pub stripe_updated: bool,
}

impl TransferProgress {
    /// Nothing read or done yet.
    pub fn new() -> (r: Self)
        ensures
            r.project is None,
            r.permission is None,
            r.profiles is None,
            !r.stripe_updated,
    {
        TransferProgress { project: None, permission: None, profiles: None, stripe_updated: false }
    }
}

/// The next thing an ownership transfer does.
#[derive(Debug)]
pub enum TransferAction {
    /// Read the project with this id.
    FindProject(String),
    /// Read the membership of this user in this project.
    FindPermission(String, String),
    /// Search Auth0 with this query.
    FindProfile(String),
    /// Set the name and email of this Stripe customer.
    UpdateStripe(String, String, String),
    /// Dispatch this event, which ends the transfer.
    Dispatch(ProjectOwnerChanged),
    /// End the transfer without any further effect (a dry run that passed every check).
    Done,
    /// Stop with this error.
    Refuse(Error),
}

/// One step of the transfer of project `project_id` to `new_owner`, run by `changed_by` at time
/// `now`, whose event gets id `id`. Every check runs, dry run or not, and in this order: an
/// existing project not already owned by the new owner, the new owner a member, an Auth0 profile
/// of the new owner. Then, unless it is a dry run, the Stripe customer gets the new owner's name
/// and email (when a Stripe driver is given) and after that the event is dispatched; a dry run
/// ends with no effect.
pub fn transfer_step(
    project_id: &str,
    new_owner: &str,
    changed_by: &str,
    dry_run: bool,
    stripe_given: bool,
    id: &str,
    now: i128,
    progress: &TransferProgress,
) -> (r: TransferAction)
    ensures
        match progress.project {
            None => r matches TransferAction::FindProject(p) && p@ == project_id@,
            Some(None) => r matches TransferAction::Refuse(e) && is_malformed(e, "invalid project id"@),
            Some(Some(p)) => if p.owner@ == new_owner@ {
                r matches TransferAction::Refuse(e) && is_malformed(
                    e,
                    "user already is the project owner"@,
                )
            } else {
                match progress.permission {
                    None => r matches TransferAction::FindPermission(u, q) && u@ == new_owner@
                        && q@ == project_id@,
                    Some(None) => r matches TransferAction::Refuse(e) && is_malformed(
                        e,
                        "new owner is not a member of the project"@,
                    ),
                    Some(Some(_)) => match progress.profiles {
                        None => r matches TransferAction::FindProfile(q) && q@ == "user_id:"@
                            + new_owner@,
                        Some(ps) => if ps.len() == 0 {
                            r matches TransferAction::Refuse(e) && is_unexpected(
                                e,
                                "Invalid user_id"@,
                            )
                        } else if dry_run {
                            r is Done
                        } else if stripe_given && !progress.stripe_updated {
                            r matches TransferAction::UpdateStripe(c, n, m) && c
                                == p.billing_provider_id && n == ps[0].name && m == ps[0].email
                        } else {
                            r matches TransferAction::Dispatch(evt) && evt.id@ == id@
                                && evt.project_id == p.id && evt.previous_owner == p.owner
                                && evt.new_owner@ == new_owner@ && evt.changed_by@
                                == changed_by@ && evt.changed_at == now
                        },
                    },
                }
            },
        },
{
    let project = match &progress.project {
        None => return TransferAction::FindProject(owned(project_id)),
        Some(None) => return TransferAction::Refuse(Error::CommandMalformed(owned("invalid project id"))),
        Some(Some(p)) => p,
    };
    if str_eq(project.owner.as_str(), new_owner) {
        return TransferAction::Refuse(
            Error::CommandMalformed(owned("user already is the project owner")),
        );
    }
    match &progress.permission {
        None => return TransferAction::FindPermission(owned(new_owner), owned(project_id)),
        Some(permission) => {
            if let Err(e) = check_new_owner_member(permission) {
                return TransferAction::Refuse(e);
            }
        },
    }
    let profile = match &progress.profiles {
        None => return TransferAction::FindProfile(user_id_query(new_owner)),
        Some(ps) => {
            if ps.len() == 0 {
                return TransferAction::Refuse(Error::Unexpected(owned("Invalid user_id")));
            }
            &ps[0]
        },
    };
    let plan = transfer_plan(dry_run, stripe_given);
    if !plan.dispatch {
        return TransferAction::Done;
    }
    if plan.update_stripe && !progress.stripe_updated {
        return TransferAction::UpdateStripe(
            project.billing_provider_id.clone(),
            profile.name.clone(),
            profile.email.clone(),
        );
    }
    TransferAction::Dispatch(project_owner_changed(owned(id), project, new_owner, changed_by, now))
}

/// What the sending of an invite has read and done so far.
#[derive(Debug, Clone)]
pub struct InviteProgress {
    /// The project, `None` until it has been read.
    pub project: Option<Option<Project>>,
    /// The expiry with which the invite mail went out, `None` until it has been sent.
    pub sent: Option<i128>,
}

impl InviteProgress {
    /// Nothing read or sent yet.
    pub fn new() -> (r: Self)
        ensures
            r.project is None,
            r.sent is None,
    {
        InviteProgress { project: None, sent: None }
    }
}

/// The next thing the sending of an invite does.
#[derive(Debug)]
pub enum InviteAction {
    /// Read the project with this id.
    FindProject(String),
    /// Mail the invite: project name, invited email, code, expiry.
    SendEmail(String, String, String, i128),
    /// Dispatch this event, which ends the invite.
    Dispatch(ProjectUserInviteCreated),
    /// End a dry run with nothing sent; the invite would have expired at this time.
    Done(i128),
    /// The expiry lies beyond what an `i128` of nanoseconds holds.
    ExpiryOverflow,
    /// Stop with this error; nothing has been changed.
    Refuse(Error),
}

/// One step of sending invite `id` to `email` with `role` and `code` into project `project_id`,
/// valid for `ttl` from `now`. The project must exist (`CommandMalformed("invalid project id")`);
/// then the expiry is fixed. A dry run ends there with nothing sent; otherwise the mail goes out
/// first, since it cannot be recalled, and the event, with the expiry the mail gave, after it.
pub fn invite_step(
    id: &str,
    project_id: &str,
    email: &str,
    role: ProjectUserRole,
    code: &str,
    ttl: Duration,
    dry_run: bool,
    now: i128,
    progress: &InviteProgress,
) -> (r: InviteAction)
    ensures
        match progress.project {
            None => r matches InviteAction::FindProject(q) && q@ == project_id@,
            Some(None) => r matches InviteAction::Refuse(e) && is_malformed(e, "invalid project id"@),
            Some(Some(p)) => match progress.sent {
                None => if now + spec_duration_nanos(ttl) > i128::MAX {
                    r is ExpiryOverflow
                } else if dry_run {
                    r matches InviteAction::Done(e) && e == now + spec_duration_nanos(ttl)
                } else {
                    r matches InviteAction::SendEmail(n, m, c, e) && n == p.name && m@ == email@
                        && c@ == code@ && e == now + spec_duration_nanos(ttl)
                },
                Some(e) => r matches InviteAction::Dispatch(evt) && evt.id@ == id@ && evt.project_id
                    == p.id && evt.email@ == email@ && evt.role@ == spec_project_user_role_text(role)
                    && evt.code@ == code@ && evt.expires_in == e && evt.created_at == now,
            },
        },
{
    let project = match &progress.project {
        None => return InviteAction::FindProject(owned(project_id)),
        Some(None) => return InviteAction::Refuse(Error::CommandMalformed(owned("invalid project id"))),
        Some(Some(p)) => p,
    };
    match progress.sent {
        None => {
            let expires_in = match invite_expires_in(now, ttl) {
                Some(e) => e,
                None => return InviteAction::ExpiryOverflow,
            };
            let plan = invite_plan(dry_run);
            if !plan.send_email {
                return InviteAction::Done(expires_in);
            }
            InviteAction::SendEmail(project.name.clone(), owned(email), owned(code), expires_in)
        },
        Some(e) => InviteAction::Dispatch(
            project_user_invite_created(owned(id), project.id.clone(), owned(email), role, owned(code), e, now),
        ),
    }
}

} // verus!
