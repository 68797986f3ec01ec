use vstd::prelude::*;

use crate::domain::auth::{
    assert_permission, permission_lookup, spec_permitted, spec_refusal_message, Credential,
};
use crate::domain::crypto::{
    argon2_raw8, base64_no_pad, bech32m_encode, generate_salt, lemma_encode_utf8_len_bounds,
    spec_argon2_raw8, spec_b64_of_bytes, spec_base64_no_pad, spec_bech32m_encodable,
    spec_bech32m_encode, spec_decodes_to, spec_no_upper,
};
use vstd::utf8::encode_utf8;
use crate::domain::error::{is_malformed, is_unexpected, Error};
use crate::domain::event::{ResourceCreated, ResourceDeleted, ResourceUpdated};
use crate::domain::json::{
    json_insert_string, json_object, spec_json_insert_string, spec_json_is_object,
    spec_json_member, spec_json_normalized, spec_json_parses, JsonObject,
};
use crate::domain::metadata::{spec_known_field_parse, KnownField};
use crate::domain::project::command::{page_of, spec_or};
use crate::domain::project::{Project, ProjectUser};
use crate::domain::utils::{
    concat, get_random_salt, is_salted, is_uuid_v4_text, lemma_remove_all_no_upper, new_id,
    no_ascii_upper, owned, remove_all, spec_remove_all, spec_to_lowercase, to_lowercase,
};
use crate::domain::{PAGE_SIZE_DEFAULT, PAGE_SIZE_MAX};

use super::{spec_resource_status_text, Resource, ResourceStatus};

verus! {

#[derive(Debug, Clone)]
pub struct FetchCmd {
    pub credential: Credential,
    pub project_id: String,
    pub page: u32,
    pub page_size: u32,
}

impl FetchCmd {
    /// A listing of a project's resources (see `page_of` for the paging rules).
    pub fn new(
        credential: Credential,
        project_id: String,
        page: Option<u32>,
        page_size: Option<u32>,
    ) -> (r: Result<Self, Error>)
        ensures
            (r is Ok) <==> (spec_or(page_size, PAGE_SIZE_DEFAULT) < PAGE_SIZE_MAX),
            r matches Ok(c) ==> (c.credential == credential && c.project_id == project_id && c.page
                == spec_or(page, 1u32) && c.page_size == spec_or(page_size, PAGE_SIZE_DEFAULT)),
            r matches Err(e) ==> is_malformed(e, "page_size exceeded the limit of 120"@),
    {
        let (page, page_size) = page_of(page, page_size)?;
        Ok(FetchCmd { credential, project_id, page, page_size })
    }
}

#[derive(Debug, Clone)]
pub struct FetchByIdCmd {
    pub credential: Credential,
    pub id: String,
}

/// The prefix of the names of a kind's resources: the kind in lower case without `port`
/// (`CardanoNodePort` gives `cardanonode`).
pub open spec fn spec_kind_prefix(kind: Seq<char>) -> Seq<char> {
    spec_remove_all(spec_to_lowercase(kind), "port"@)
}

/// The name prefix of a kind's resources (see `spec_kind_prefix`).
pub fn kind_prefix(kind: &str) -> (r: String)
    ensures
        r@ == spec_kind_prefix(kind@),
        no_ascii_upper(r@),
{
    let lower = to_lowercase(kind);
    proof {
        lemma_remove_all_no_upper(lower@, "port"@);
    }
    remove_all(lower.as_str(), "port")
}

/// A resource creation. `spec` holds the requested spec, a JSON object as serde_json writes it.
#[derive(Debug, Clone)]
pub struct CreateCmd {
    pub credential: Credential,
    pub id: String,
    pub name: String,
    pub project_id: String,
    pub kind: String,
    pub spec: String,
}

impl CreateCmd {
    /// A resource creation with a fresh id and a name `<kind prefix>-<salt>`. A spec that is not
    /// JSON is refused with `CommandMalformed("spec must be a json")`, JSON that is not an object
    /// with `CommandMalformed("invalid spec json")`.
    pub fn new(credential: Credential, project_id: String, kind: String, spec: String) -> (r:
        Result<Self, Error>)
        ensures
            !spec_json_parses(spec@) ==> (r matches Err(e) && is_malformed(e, "spec must be a json"@)),
            (spec_json_parses(spec@) && !spec_json_is_object(spec@)) ==> (r matches Err(e)
                && is_malformed(e, "invalid spec json"@)),
            spec_json_is_object(spec@) ==> (r is Ok),
            r matches Ok(c) ==> (c.credential == credential && c.project_id == project_id && c.kind
                == kind && is_uuid_v4_text(c.id@) && is_salted(c.name@, spec_kind_prefix(kind@) + "-"@)
                && c.spec@ == spec_json_normalized(spec@) && spec_json_is_object(c.spec@)),
    {
        let id = new_id();
        let prefix = kind_prefix(kind.as_str());
        let salt = get_random_salt();
        let mut name = concat(prefix.as_str(), "-");
        let ghost head = name@;
        name.append(salt.as_str());
        proof {
            assert(name@.subrange(0, head.len() as int) =~= head);
            assert forall|k: int| head.len() <= k < name@.len() implies crate::domain::utils::is_lower_or_digit(#[trigger] name@[k]) by {
                assert(name@[k] == salt@[k - head.len()]);
            }
        }
        let spec = match json_object(spec.as_str()) {
            JsonObject::Invalid => return Err(Error::CommandMalformed(owned("spec must be a json"))),
            JsonObject::NotObject => return Err(Error::CommandMalformed(owned("invalid spec json"))),
            JsonObject::Object(t) => t,
        };
        Ok(CreateCmd { credential, id, name, project_id, kind, spec })
    }
}

/// A resource update. `spec` holds the spec patch, a JSON object as serde_json writes it.
#[derive(Debug, Clone)]
pub struct UpdateCmd {
    pub credential: Credential,
    pub id: String,
    pub spec: String,
}

impl UpdateCmd {
    /// A resource update; the patch must be a JSON object, as for `CreateCmd::new`.
    pub fn new(credential: Credential, id: String, spec: String) -> (r: Result<Self, Error>)
        ensures
            !spec_json_parses(spec@) ==> (r matches Err(e) && is_malformed(e, "spec must be a json"@)),
            (spec_json_parses(spec@) && !spec_json_is_object(spec@)) ==> (r matches Err(e)
                && is_malformed(e, "invalid spec json"@)),
            spec_json_is_object(spec@) ==> (r is Ok),
            r matches Ok(c) ==> (c.credential == credential && c.id == id && c.spec@
                == spec_json_normalized(spec@) && spec_json_is_object(c.spec@)),
    {
        let spec = match json_object(spec.as_str()) {
            JsonObject::Invalid => return Err(Error::CommandMalformed(owned("spec must be a json"))),
            JsonObject::NotObject => return Err(Error::CommandMalformed(owned("invalid spec json"))),
            JsonObject::Object(t) => t,
        };
        Ok(UpdateCmd { credential, id, spec })
    }
}

#[derive(Debug, Clone)]
pub struct DeleteCmd {
    pub credential: Credential,
    pub id: String,
}

/// A resource with the annotations rendered for it; when rendering failed the resource is
/// returned as it was.
pub fn with_annotations(resource: Resource, rendered: Result<String, Error>) -> (r: Resource)
    ensures
        match rendered {
            Ok(a) => r == Resource { annotations: Some(a), ..resource },
            Err(_) => r == resource,
        },
{
    match rendered {
        Ok(a) => Resource { annotations: Some(a), ..resource },
        Err(_) => resource,
    }
}

/// A generated resource name must not be taken in the project already; a clash is
/// `Unexpected("invalid random name, try again")`.
pub fn check_name_free(existing: &Option<Resource>) -> (r: Result<(), Error>)
    ensures
        (r is Ok) <==> (existing is None),
        r matches Err(e) ==> is_unexpected(e, "invalid random name, try again"@),
{
    if existing.is_some() {
        return Err(Error::Unexpected(owned("invalid random name, try again")));
    }
    Ok(())
}

/// Whether argon2 accepts the two ids, joined, as the password of a key derivation: at most
/// `0xFFFF_FFFF` bytes of UTF-8.
pub open spec fn spec_key_derivable(project_id: Seq<char>, resource_id: Seq<char>) -> bool {
    encode_utf8(project_id + resource_id).len() <= 0xFFFF_FFFF
}

/// Derives eight key bytes from the project and resource ids with argon2 under a fresh random
/// salt (the B64 encoding of sixteen random bytes). It succeeds whenever argon2 accepts the ids
/// (`spec_key_derivable`); otherwise the failure is `Unexpected` with argon2's message.
pub fn build_key(project_id: &str, resource_id: &str) -> (r: Result<Vec<u8>, Error>)
    ensures
        (r is Ok) <==> spec_key_derivable(project_id@, resource_id@),
        r matches Ok(k) ==> (k@.len() == 8 && exists|salt: Seq<char>|
            spec_b64_of_bytes(salt, 16, 16) && k@ == #[trigger] spec_argon2_raw8(
                project_id@ + resource_id@,
                salt,
            )),
        r matches Err(e) ==> e is Unexpected,
{
    let key = concat(project_id, resource_id);
    let salt = generate_salt();
    proof {
        lemma_encode_utf8_len_bounds(salt@);
    }
    match argon2_raw8(key.as_str(), salt.as_str()) {
        Ok(k) => Ok(k),
        Err(m) => Err(Error::Unexpected(m)),
    }
}

/// Encodes key bytes as bech32m under the kind prefix of `prefix`; a prefix that bech32 refuses
/// is `Unexpected` with bech32's message.
pub fn encode_key(key: Vec<u8>, prefix: &str) -> (r: Result<String, Error>)
    ensures
        (r is Ok) <==> spec_bech32m_encodable(spec_kind_prefix(prefix@), key@.len() as int),
        r matches Ok(s) ==> s@ == spec_bech32m_encode(spec_kind_prefix(prefix@), key@),
        r matches Ok(s) ==> spec_decodes_to(s@, spec_kind_prefix(prefix@), key@),
        r matches Err(e) ==> e is Unexpected,
{
    let hrp = kind_prefix(prefix);
    match bech32m_encode(hrp.as_str(), key.as_slice()) {
        Ok(s) => Ok(s),
        Err(m) => Err(Error::Unexpected(m)),
    }
}

/// Whether `v` is a value generated for the status field `f` of a resource of `kind` in
/// project `project_id` with id `resource_id`: an auth token or user name is a key derived from
/// the two ids, bech32m encoded under the kind prefix; a password is such a key in base64.
pub open spec fn spec_generated_value(
    f: KnownField,
    v: Seq<char>,
    project_id: Seq<char>,
    resource_id: Seq<char>,
    kind: Seq<char>,
) -> bool {
    exists|salt: Seq<char>|
        {
            let k = #[trigger] spec_argon2_raw8(project_id + resource_id, salt);
            match f {
                KnownField::Password => v == spec_base64_no_pad(k),
                _ => v == spec_bech32m_encode(spec_kind_prefix(kind), k),
            }
        }
}

/// Whether the value of status field `f` can be generated: argon2 accepts the ids, and for a
/// field other than the password bech32m accepts eight key bytes under the kind prefix.
pub open spec fn spec_field_generable(
    f: KnownField,
    project_id: Seq<char>,
    resource_id: Seq<char>,
    kind: Seq<char>,
) -> bool {
    &&& spec_key_derivable(project_id, resource_id)
    &&& (f == KnownField::Password || spec_bech32m_encodable(spec_kind_prefix(kind), 8))
}

/// Generates the value of a status field (see `spec_generated_value`); it succeeds exactly when
/// the value can be generated (`spec_field_generable`).
pub fn status_field_value(f: KnownField, project_id: &str, resource_id: &str, kind: &str) -> (r:
    Result<String, Error>)
    ensures
        (r is Ok) <==> spec_field_generable(f, project_id@, resource_id@, kind@),
        r matches Ok(v) ==> spec_generated_value(f, v@, project_id@, resource_id@, kind@),
        r matches Err(e) ==> e is Unexpected,
{
    let key = build_key(project_id, resource_id)?;
    let ghost k = key@;
    match f {
        KnownField::Password => {
            let v = base64_no_pad(key.as_slice());
            Ok(v)
        },
        _ => {
            let v = encode_key(key, kind)?;
            Ok(v)
        },
    }
}

/// The spec `s` with `vals[i]` inserted under `fields[i]` for each field name that denotes a
/// known status field, in order.
pub open spec fn spec_insert_known(s: Seq<char>, fields: Seq<String>, vals: Seq<Seq<char>>) -> Seq<
    char,
>
    decreases fields.len(),
{
    if fields.len() == 0 {
        s
    } else {
        let prev = spec_insert_known(s, fields.drop_last(), vals.drop_last());
        match spec_known_field_parse(fields.last()@) {
            Some(_) => spec_json_insert_string(prev, fields.last()@, vals.last()),
            None => prev,
        }
    }
}

/// `vals` are generated values for the known status fields among `fields`.
pub open spec fn spec_generated_values(
    fields: Seq<String>,
    vals: Seq<Seq<char>>,
    project_id: Seq<char>,
    resource_id: Seq<char>,
    kind: Seq<char>,
) -> bool {
    &&& vals.len() == fields.len()
    &&& forall|i: int|
        0 <= i < fields.len() ==> match spec_known_field_parse((#[trigger] fields[i])@) {
            Some(f) => spec_generated_value(f, vals[i], project_id, resource_id, kind),
            None => true,
        }
}

/// Whether `k` is the name of a known status field among `fields`.
pub open spec fn spec_names_known_field(fields: Seq<String>, k: Seq<char>) -> bool {
    exists|i: int| 0 <= i < fields.len() && (#[trigger] fields[i])@ == k && spec_known_field_parse(k) is Some
}

/// Whether a value can be generated for every known status field among `fields`.
pub open spec fn spec_fields_generable(
    fields: Seq<String>,
    project_id: Seq<char>,
    resource_id: Seq<char>,
    kind: Seq<char>,
) -> bool {
    forall|i: int|
        0 <= i < fields.len() ==> match spec_known_field_parse((#[trigger] fields[i])@) {
            Some(f) => spec_field_generable(f, project_id, resource_id, kind),
            None => true,
        }
}

/// The spec of a new resource: the requested spec with a generated value under each status
/// field of the kind's CRD that is a known field (other fields are left out). The spec must be
/// a JSON object, as `CreateCmd::new` makes it; anything else is refused as `CreateCmd::new`
/// refuses it. An object spec succeeds exactly when every known status field can be generated.
pub fn spec_with_status_fields(
    spec: String,
    status_fields: &Vec<String>,
    project_id: &str,
    resource_id: &str,
    kind: &str,
) -> (r: Result<String, Error>)
    ensures
        !spec_json_parses(spec@) ==> (r matches Err(e) && is_malformed(e, "spec must be a json"@)),
        (spec_json_parses(spec@) && !spec_json_is_object(spec@)) ==> (r matches Err(e)
            && is_malformed(e, "invalid spec json"@)),
        (r is Ok) <==> (spec_json_is_object(spec@) && spec_fields_generable(
            status_fields@,
            project_id@,
            resource_id@,
            kind@,
        )),
        r matches Ok(t) ==> (spec_json_is_object(spec@) && spec_json_is_object(t@) && exists|vals: Seq<Seq<char>>|
            spec_generated_values(status_fields@, vals, project_id@, resource_id@, kind@)
                && t@ == #[trigger] spec_insert_known(spec@, status_fields@, vals)),
        r matches Err(e) ==> (e is Unexpected || e is CommandMalformed),
        spec_json_is_object(spec@) ==> (r matches Err(e) ==> e is Unexpected),
        r matches Ok(t) ==> forall|i: int|
            0 <= i < status_fields.len() ==> (spec_known_field_parse((#[trigger] status_fields@[i])@) matches Some(f)
                ==> exists|v: Seq<char>|
                spec_json_member(t@, status_fields@[i]@) == Some(Some(v)) && #[trigger] spec_generated_value(
                    f,
                    v,
                    project_id@,
                    resource_id@,
                    kind@,
                )),
        r matches Ok(t) ==> forall|k: Seq<char>|
            !spec_names_known_field(status_fields@, k) ==> #[trigger] spec_json_member(t@, k)
                == spec_json_member(spec@, k),
{
    match json_object(spec.as_str()) {
        JsonObject::Invalid => return Err(Error::CommandMalformed(owned("spec must be a json"))),
        JsonObject::NotObject => return Err(Error::CommandMalformed(owned("invalid spec json"))),
        JsonObject::Object(_) => {},
    }
    let mut out = spec;
    let ghost mut vals: Seq<Seq<char>> = Seq::empty();
    let n = status_fields.len();
    let mut i: usize = 0;
    proof {
        assert(status_fields@.take(0) =~= Seq::<String>::empty());
    }
    while i < n
        invariant
            n == status_fields.len(),
            i <= n,
            spec_json_is_object(spec@),
            spec_json_parses(spec@),
            spec_json_is_object(out@),
            spec_generated_values(status_fields@.take(i as int), vals, project_id@, resource_id@, kind@),
            out@ == spec_insert_known(spec@, status_fields@.take(i as int), vals),
            spec_fields_generable(status_fields@.take(i as int), project_id@, resource_id@, kind@),
            forall|j: int|
                0 <= j < i ==> (spec_known_field_parse((#[trigger] status_fields@[j])@) matches Some(f)
                    ==> exists|v: Seq<char>|
                    spec_json_member(out@, status_fields@[j]@) == Some(Some(v)) && #[trigger] spec_generated_value(
                        f,
                        v,
                        project_id@,
                        resource_id@,
                        kind@,
                    )),
            forall|k: Seq<char>|
                !spec_names_known_field(status_fields@.take(i as int), k) ==> #[trigger] spec_json_member(out@, k)
                    == spec_json_member(spec@, k),
        decreases n - i,
    {
        let key = &status_fields[i];
        let ghost before = out@;
        let ghost old_vals = vals;
        proof {
            assert(status_fields@.take(i + 1).drop_last() =~= status_fields@.take(i as int));
            assert(status_fields@.take(i + 1).last() == status_fields@[i as int]);
        }
        match KnownField::from_str(key.as_str()) {
            Ok(f) => {
                let v = match status_field_value(f, project_id, resource_id, kind) {
                    Ok(v) => v,
                    Err(e) => {
                        proof {
                            assert(spec_known_field_parse(status_fields@[i as int]@) == Some(f));
                            assert(!spec_fields_generable(status_fields@, project_id@, resource_id@, kind@));
                        }
                        return Err(e);
                    },
                };
                out = json_insert_string(out.as_str(), key.as_str(), v.as_str());
                proof {
                    vals = old_vals.push(v@);
                    assert(vals.drop_last() =~= old_vals);
                    let fs = status_fields@;
                    assert(key@ == fs[i as int]@);
                    assert forall|j: int| 0 <= j < i + 1 implies (spec_known_field_parse((#[trigger] fs[j])@) matches Some(g)
                        ==> exists|w: Seq<char>|
                        spec_json_member(out@, fs[j]@) == Some(Some(w)) && #[trigger] spec_generated_value(
                            g,
                            w,
                            project_id@,
                            resource_id@,
                            kind@,
                        )) by {
                        if j == i || fs[j]@ == key@ {
                            assert(spec_generated_value(f, v@, project_id@, resource_id@, kind@));
                        } else {
                            assert(spec_json_member(out@, fs[j]@) == spec_json_member(before, fs[j]@));
                        }
                    }
                    assert forall|k: Seq<char>| !spec_names_known_field(fs.take(i + 1), k) implies #[trigger] spec_json_member(out@, k)
                        == spec_json_member(spec@, k) by {
                        let t = fs.take(i + 1);
                        assert(t[i as int] == fs[i as int]);
                        if k == key@ {
                            assert(spec_names_known_field(t, k));
                        }
                        if spec_names_known_field(fs.take(i as int), k) {
                            let j = choose|j: int| 0 <= j < fs.take(i as int).len() && (#[trigger] fs.take(i as int)[j])@ == k
                                && spec_known_field_parse(k) is Some;
                            assert(t[j] == fs.take(i as int)[j]);
                        }
                        assert(spec_json_member(out@, k) == spec_json_member(before, k));
                    }
                }
            },
            Err(_) => {
                proof {
                    vals = old_vals.push(Seq::empty());
                    assert(vals.drop_last() =~= old_vals);
                    let fs = status_fields@;
                    assert(spec_known_field_parse(fs[i as int]@) is None);
                    assert forall|k: Seq<char>| !spec_names_known_field(fs.take(i + 1), k) implies #[trigger] spec_json_member(out@, k)
                        == spec_json_member(spec@, k) by {
                        let t = fs.take(i + 1);
                        if spec_names_known_field(fs.take(i as int), k) {
                            let j = choose|j: int| 0 <= j < fs.take(i as int).len() && (#[trigger] fs.take(i as int)[j])@ == k
                                && spec_known_field_parse(k) is Some;
                            assert(t[j] == fs.take(i as int)[j]);
                        }
                    }
                }
            },
        }
        proof {
            let t = status_fields@.take(i + 1);
            assert forall|j: int| 0 <= j < t.len() implies match spec_known_field_parse((#[trigger] t[j])@) {
                Some(f) => spec_generated_value(f, vals[j], project_id@, resource_id@, kind@),
                None => true,
            } by {
                if j < i {
                    assert(t[j] == status_fields@.take(i as int)[j]);
                    assert(vals[j] == old_vals[j]);
                }
            }
            assert forall|j: int| 0 <= j < t.len() implies match spec_known_field_parse((#[trigger] t[j])@) {
                Some(f) => spec_field_generable(f, project_id@, resource_id@, kind@),
                None => true,
            } by {
                if j < i {
                    assert(t[j] == status_fields@.take(i as int)[j]);
                }
            }
        }
        i = i + 1;
    }
    proof {
        assert(status_fields@.take(n as int) =~= status_fields@);
    }
    Ok(out)
}

/// The event that records a new resource of the project: active, with the given spec.
pub fn resource_created(cmd: &CreateCmd, project: &Project, spec: String, now: i128) -> (r:
    ResourceCreated)
    ensures
        r.id == cmd.id,
        r.project_id == project.id,
        r.project_namespace == project.namespace,
        r.name == cmd.name,
        r.kind == cmd.kind,
        r.spec == spec,
        r.status@ == spec_resource_status_text(ResourceStatus::Active),
        r.created_at == now,
        r.updated_at == now,
{
    ResourceCreated {
        id: cmd.id.clone(),
        project_id: project.id.clone(),
        project_namespace: project.namespace.clone(),
        name: cmd.name.clone(),
        kind: cmd.kind.clone(),
        spec,
        status: ResourceStatus::Active.to_string(),
        created_at: now,
        updated_at: now,
    }
}

/// The event that records a spec patch of a resource.
pub fn resource_updated(cmd: &UpdateCmd, project: &Project, resource: &Resource, now: i128) -> (r:
    ResourceUpdated)
    ensures
        r.id == cmd.id,
        r.project_id == project.id,
        r.project_namespace == project.namespace,
        r.name == resource.name,
        r.kind == resource.kind,
        r.spec_patch == cmd.spec,
        r.updated_at == now,
{
    ResourceUpdated {
        id: cmd.id.clone(),
        project_id: project.id.clone(),
        project_namespace: project.namespace.clone(),
        name: resource.name.clone(),
        kind: resource.kind.clone(),
        spec_patch: cmd.spec.clone(),
        updated_at: now,
    }
}

/// The event that records the deletion of a resource.
pub fn resource_deleted(id: String, project: &Project, resource: &Resource, now: i128) -> (r:
    ResourceDeleted)
    ensures
        r.id == id,
        r.project_id == project.id,
        r.project_namespace == project.namespace,
        r.name == resource.name,
        r.kind == resource.kind,
        r.status@ == spec_resource_status_text(ResourceStatus::Deleted),
        r.deleted_at == now,
{
    ResourceDeleted {
        id,
        project_id: project.id.clone(),
        project_namespace: project.namespace.clone(),
        name: resource.name.clone(),
        kind: resource.kind.clone(),
        status: ResourceStatus::Deleted.to_string(),
        deleted_at: now,
    }
}

/// What the creation of a resource has read so far; `None` is what has not been read yet.
#[derive(Debug, Clone)]
pub struct CreateProgress {
    /// The caller's membership of the project (read only for a user).
    pub permission: Option<Option<ProjectUser>>,
    /// The resource of the project that already has the generated name.
    pub existing: Option<Option<Resource>>,
    /// The status fields of the kind's CRD, or `None` when the kind is not supported.
    pub status_fields: Option<Option<Vec<String>>>,
    /// The project.
    pub project: Option<Option<Project>>,
}

impl CreateProgress {
    /// Nothing read yet.
    pub fn new() -> (r: Self)
        ensures
            r.permission is None,
            r.existing is None,
            r.status_fields is None,
            r.project is None,
    {
        CreateProgress { permission: None, existing: None, status_fields: None, project: None }
    }
}

/// The next thing the creation of a resource does.
#[derive(Debug)]
pub enum CreateAction {
    /// Read the membership of this user in this project.
    FindPermission(String, String),
    /// Read the resource of this project with this name.
    FindByName(String, String),
    /// Read the status fields of the CRD of this kind.
    FindKind(String),
    /// Read the project with this id.
    FindProject(String),
    /// Dispatch this event, which ends the creation.
    Dispatch(ResourceCreated),
    /// Stop with this error; nothing has been changed.
    Refuse(Error),
}

/// The membership that a permission decision goes by: the one read for a user, none for an API
/// key.
pub open spec fn spec_permission_read(c: Credential, read: Option<Option<ProjectUser>>) -> Option<
    ProjectUser,
> {
    match c {
        Credential::Auth0(_) => match read {
            Some(p) => p,
            None => None,
        },
        Credential::ApiKey(_) => None,
    }
}

/// One step of the creation of the resource of `cmd` at time `now`, given what has been read so
/// far. The checks come in this order, each read only once the checks before it passed: the
/// caller may act on the project, the generated name is free, the kind is supported
/// (`CommandMalformed("kind not supported")`), the project exists
/// (`CommandMalformed("invalid project id")`), a value can be generated for every status field
/// (a spec that is not a JSON object, which `CreateCmd::new` never makes, is refused there as
/// `CreateCmd::new` refuses it). Only then is the event dispatched, with the spec filled in.
pub fn create_step(cmd: &CreateCmd, now: i128, progress: &CreateProgress) -> (r: CreateAction)
    ensures
        ({
            let permission = spec_permission_read(cmd.credential, progress.permission);
            if cmd.credential is Auth0 && progress.permission is None {
                r matches CreateAction::FindPermission(u, p) && u@ == cmd.credential->Auth0_0@
                    && p@ == cmd.project_id@
            } else if !spec_permitted(cmd.credential, cmd.project_id@, None, permission) {
                r matches CreateAction::Refuse(e) && e is Unauthorized && e.message()
                    == spec_refusal_message(cmd.credential)
            } else {
                match progress.existing {
                    None => r matches CreateAction::FindByName(p, n) && p@ == cmd.project_id@ && n@
                        == cmd.name@,
                    Some(Some(_)) => r matches CreateAction::Refuse(e) && is_unexpected(
                        e,
                        "invalid random name, try again"@,
                    ),
                    Some(None) => match progress.status_fields {
                        None => r matches CreateAction::FindKind(k) && k@ == cmd.kind@,
                        Some(None) => r matches CreateAction::Refuse(e) && is_malformed(
                            e,
                            "kind not supported"@,
                        ),
                        Some(Some(fields)) => match progress.project {
                            None => r matches CreateAction::FindProject(p) && p@ == cmd.project_id@,
                            Some(None) => r matches CreateAction::Refuse(e) && is_malformed(
                                e,
                                "invalid project id"@,
                            ),
                            Some(Some(p)) => if spec_json_is_object(cmd.spec@)
                                && spec_fields_generable(fields@, p.id@, cmd.id@, cmd.kind@) {
                                r matches CreateAction::Dispatch(evt) && evt.id == cmd.id
                                    && evt.project_id == p.id && evt.project_namespace
                                    == p.namespace && evt.name == cmd.name && evt.kind == cmd.kind
                                    && evt.status@ == spec_resource_status_text(ResourceStatus::Active)
                                    && evt.created_at == now && evt.updated_at == now
                                    && spec_json_is_object(evt.spec@) && exists|vals: Seq<Seq<char>>|
                                    spec_generated_values(fields@, vals, p.id@, cmd.id@, cmd.kind@)
                                        && evt.spec@ == #[trigger] spec_insert_known(
                                        cmd.spec@,
                                        fields@,
                                        vals,
                                    )
                            } else {
                                r matches CreateAction::Refuse(e) && (spec_json_is_object(
                                    cmd.spec@,
                                ) ==> e is Unexpected)
                            },
                        },
                    },
                }
            }
        }),
{
    let none: Option<ProjectUser> = None;
    let permission = match (permission_lookup(&cmd.credential), &progress.permission) {
        (Some(u), None) => return CreateAction::FindPermission(u, cmd.project_id.clone()),
        (Some(_), Some(p)) => p,
        (None, _) => &none,
    };
    if let Err(e) = assert_permission(&cmd.credential, cmd.project_id.as_str(), None, permission) {
        return CreateAction::Refuse(e);
    }
    match &progress.existing {
        None => return CreateAction::FindByName(cmd.project_id.clone(), cmd.name.clone()),
        Some(existing) => {
            if let Err(e) = check_name_free(existing) {
                return CreateAction::Refuse(e);
            }
        },
    }
    let fields = match &progress.status_fields {
        None => return CreateAction::FindKind(cmd.kind.clone()),
        Some(None) => return CreateAction::Refuse(Error::CommandMalformed(owned("kind not supported"))),
        Some(Some(f)) => f,
    };
    let project = match &progress.project {
        None => return CreateAction::FindProject(cmd.project_id.clone()),
        Some(None) => return CreateAction::Refuse(Error::CommandMalformed(owned("invalid project id"))),
        Some(Some(p)) => p,
    };
    let spec = match spec_with_status_fields(
        cmd.spec.clone(),
        fields,
        project.id.as_str(),
        cmd.id.as_str(),
        cmd.kind.as_str(),
    ) {
        Ok(s) => s,
        Err(e) => return CreateAction::Refuse(e),
    };
    CreateAction::Dispatch(resource_created(cmd, project, spec, now))
}

} // verus!
