use vstd::prelude::*;

use super::error::{is_unexpected, Error};
use super::event::{ResourceCreated, ResourceUpdated};
use super::utils::{owned, str_eq};

pub mod cluster;
pub mod command;

verus! {

// Times are nanoseconds since the Unix epoch, UTC.

#[derive(Debug, Clone)]
pub struct Resource {
    pub id: String,
    pub project_id: String,
    pub name: String,
    pub kind: String,
    pub spec: String,
    pub annotations: Option<String>,
    pub status: ResourceStatus,
    pub created_at: i128,
    pub updated_at: i128,
}

impl Resource {
    /// The resource that a `ResourceCreated` event describes, not yet annotated; refused when
    /// its status is unknown.
    pub fn try_from(value: ResourceCreated) -> (r: Result<Resource, Error>)
        ensures
            match spec_resource_status_parse(value.status@) {
                Some(st) => r matches Ok(x) && x.id == value.id && x.project_id
                    == value.project_id && x.name == value.name && x.kind == value.kind && x.spec
                    == value.spec && x.annotations is None && x.status == st && x.created_at
                    == value.created_at && x.updated_at == value.updated_at,
                None => r matches Err(e) && is_unexpected(e, "resource status not supported"@),
            },
    {
        let status = ResourceStatus::from_str(value.status.as_str())?;
        Ok(Resource {
            id: value.id,
            project_id: value.project_id,
            name: value.name,
            kind: value.kind,
            spec: value.spec,
            annotations: None,
            status,
            created_at: value.created_at,
            updated_at: value.updated_at,
        })
    }
}

#[derive(Debug, Clone)]
pub struct ResourceUpdate {
    pub id: String,
    pub project_id: String,
    pub project_namespace: String,
    pub kind: String,
    pub spec_patch: String,
    pub updated_at: i128,
}

impl ResourceUpdate {
    /// The change that a `ResourceUpdated` event describes.
    pub fn try_from(value: ResourceUpdated) -> (r: Result<ResourceUpdate, Error>)
        ensures
            r matches Ok(u) && u.id == value.id && u.project_id == value.project_id
                && u.project_namespace == value.project_namespace && u.kind == value.kind
                && u.spec_patch == value.spec_patch && u.updated_at == value.updated_at,
    {
        Ok(ResourceUpdate {
            id: value.id,
            project_id: value.project_id,
            project_namespace: value.project_namespace,
            kind: value.kind,
            spec_patch: value.spec_patch,
            updated_at: value.updated_at,
        })
    }
}

#[derive(Debug, Clone, Copy, PartialEq, Eq, Structural)]
pub enum ResourceStatus {
    Active,
    Deleted,
}

/// How a resource status is written.
pub open spec fn spec_resource_status_text(s: ResourceStatus) -> Seq<char> {
    match s {
        ResourceStatus::Active => "active"@,
        ResourceStatus::Deleted => "deleted"@,
    }
}

/// The resource status that a text names.
pub open spec fn spec_resource_status_parse(s: Seq<char>) -> Option<ResourceStatus> {
    if s == "active"@ {
        Some(ResourceStatus::Active)
    } else if s == "deleted"@ {
        Some(ResourceStatus::Deleted)
    } else {
        None
    }
}

impl ResourceStatus {
    /// Reads a resource status; an unknown text is refused with
    /// `Unexpected("resource status not supported")`.
    pub fn from_str(s: &str) -> (r: Result<ResourceStatus, Error>)
        ensures
            match spec_resource_status_parse(s@) {
                Some(st) => r == Ok::<ResourceStatus, Error>(st),
                None => r matches Err(e) && is_unexpected(e, "resource status not supported"@),
            },
    {
        if str_eq(s, "active") {
            Ok(ResourceStatus::Active)
        } else if str_eq(s, "deleted") {
            Ok(ResourceStatus::Deleted)
        } else {
            Err(Error::Unexpected(owned("resource status not supported")))
        }
    }

    /// How the status is written.
    pub fn to_string(&self) -> (r: String)
        ensures
            r@ == spec_resource_status_text(*self),
    {
        match self {
            ResourceStatus::Active => owned("active"),
            ResourceStatus::Deleted => owned("deleted"),
        }
    }
}

/// Writing a resource status and reading it back gives the same status, and every text that
/// reads as a status is the way that status is written.
pub proof fn lemma_resource_status_roundtrip(s: ResourceStatus, t: Seq<char>)
    ensures
        spec_resource_status_parse(spec_resource_status_text(s)) == Some(s),
        spec_resource_status_parse(t) matches Some(x) ==> spec_resource_status_text(x) == t,
{
    reveal_strlit("active");
    reveal_strlit("deleted");
    assert("active"@.len() == 6);
    assert("deleted"@.len() == 7);
}

} // verus!
