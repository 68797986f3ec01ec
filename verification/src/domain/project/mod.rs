use vstd::prelude::*;

use super::error::Error;
use super::event::{
    ProjectCreated, ProjectSecretCreated, ProjectUpdated, ProjectUserInviteAccepted,
    ProjectUserInviteCreated,
};
use super::utils::{concat, owned, str_eq};

pub mod command;

verus! {

// Times are nanoseconds since the Unix epoch, UTC.

#[derive(Debug, Clone)]
pub struct Project {
    pub id: String,
    pub name: String,
    pub namespace: String,
    pub owner: String,
    pub status: ProjectStatus,
    pub billing_provider: String,
    pub billing_provider_id: String,
    pub billing_subscription_id: Option<String>,
    pub created_at: i128,
    pub updated_at: i128,
}

impl Project {
    /// The project that a `ProjectCreated` event describes; refused when its status is unknown.
    pub fn try_from(value: ProjectCreated) -> (r: Result<Project, Error>)
        ensures
            match spec_project_status_parse(value.status@) {
                Some(st) => r matches Ok(p) && p.id == value.id && p.name == value.name
                    && p.namespace == value.namespace && p.owner == value.owner && p.status == st
                    && p.billing_provider == value.billing_provider && p.billing_provider_id
                    == value.billing_provider_id && p.billing_subscription_id
                    == value.billing_subscription_id && p.created_at == value.created_at
                    && p.updated_at == value.updated_at,
                None => r matches Err(e) && e is Unexpected && e.message()
                    == "project status not supported: "@ + value.status@,
            },
    {
        let status = ProjectStatus::from_str(value.status.as_str())?;
        Ok(Project {
            id: value.id,
            name: value.name,
            namespace: value.namespace,
            owner: value.owner,
            status,
            billing_provider: value.billing_provider,
            billing_provider_id: value.billing_provider_id,
            billing_subscription_id: value.billing_subscription_id,
            created_at: value.created_at,
            updated_at: value.updated_at,
        })
    }
}

#[derive(Debug, Clone)]
pub struct ProjectUpdate {
    pub id: String,
    pub name: Option<String>,
    pub status: Option<ProjectStatus>,
    pub updated_at: i128,
}

impl ProjectUpdate {
    /// The change that a `ProjectUpdated` event describes; refused when it names an unknown
    /// status.
    pub fn try_from(value: ProjectUpdated) -> (r: Result<ProjectUpdate, Error>)
        ensures
            match value.status {
                None => r matches Ok(u) && u.id == value.id && u.name == value.name && u.status
                    is None && u.updated_at == value.updated_at,
                Some(s) => match spec_project_status_parse(s@) {
                    Some(st) => r matches Ok(u) && u.id == value.id && u.name == value.name
                        && u.status == Some(st) && u.updated_at == value.updated_at,
                    None => r matches Err(e) && e is Unexpected && e.message()
                        == "project status not supported: "@ + s@,
                },
            },
    {
        let status = match &value.status {
            Some(s) => Some(ProjectStatus::from_str(s.as_str())?),
            None => None,
        };
        Ok(ProjectUpdate { id: value.id, name: value.name, status, updated_at: value.updated_at })
    }
}

#[derive(Debug, Clone, Copy, PartialEq, Eq, Structural)]
pub enum ProjectStatus {
    Active,
    Deleted,
    PaymentMethodFailed,
}

/// How a project status is written in events and in the cache.
pub open spec fn spec_project_status_text(s: ProjectStatus) -> Seq<char> {
    match s {
        ProjectStatus::Active => "active"@,
        ProjectStatus::Deleted => "deleted"@,
        ProjectStatus::PaymentMethodFailed => "pm-failed"@,
    }
}

/// The status that a text names; `dcu-consumed` is read as an active project.
pub open spec fn spec_project_status_parse(s: Seq<char>) -> Option<ProjectStatus> {
    if s == "active"@ {
        Some(ProjectStatus::Active)
    } else if s == "dcu-consumed"@ {
        Some(ProjectStatus::Active)
    } else if s == "pm-failed"@ {
        Some(ProjectStatus::PaymentMethodFailed)
    } else if s == "deleted"@ {
        Some(ProjectStatus::Deleted)
    } else {
        None
    }
}

impl ProjectStatus {
    /// Reads a project status; an unknown text is refused with
    /// `Unexpected("project status not supported: <s>")`.
    pub fn from_str(s: &str) -> (r: Result<ProjectStatus, Error>)
        ensures
            match spec_project_status_parse(s@) {
                Some(st) => r == Ok::<ProjectStatus, Error>(st),
                None => r matches Err(e) && e is Unexpected && e.message()
                    == "project status not supported: "@ + s@,
            },
    {
        if str_eq(s, "active") {
            Ok(ProjectStatus::Active)
        } else if str_eq(s, "dcu-consumed") {
            Ok(ProjectStatus::Active)
        } else if str_eq(s, "pm-failed") {
            Ok(ProjectStatus::PaymentMethodFailed)
        } else if str_eq(s, "deleted") {
            Ok(ProjectStatus::Deleted)
        } else {
            Err(Error::Unexpected(concat("project status not supported: ", s)))
        }
    }

    /// How the status is written.
    pub fn to_string(&self) -> (r: String)
        ensures
            r@ == spec_project_status_text(*self),
    {
        match self {
            ProjectStatus::Active => owned("active"),
            ProjectStatus::Deleted => owned("deleted"),
            ProjectStatus::PaymentMethodFailed => owned("pm-failed"),
        }
    }
}

/// Writing a status and reading it back gives the same status. (The converse fails:
/// `dcu-consumed` reads as `Active`, which is written `active`.)
pub proof fn lemma_project_status_roundtrip(s: ProjectStatus)
    ensures
        spec_project_status_parse(spec_project_status_text(s)) == Some(s),
{
    reveal_strlit("active");
    reveal_strlit("dcu-consumed");
    reveal_strlit("pm-failed");
    reveal_strlit("deleted");
    assert("active"@.len() == 6);
    assert("dcu-consumed"@.len() == 12);
    assert("pm-failed"@.len() == 9);
    assert("deleted"@.len() == 7);
}

#[derive(Debug, Clone)]
pub struct ProjectSecret {
    pub id: String,
    pub project_id: String,
    pub name: String,
    pub phc: String,
    pub secret: Vec<u8>,
    pub created_at: i128,
}

impl ProjectSecret {
    /// The secret that a `ProjectSecretCreated` event describes.
    pub fn from(value: ProjectSecretCreated) -> (r: ProjectSecret)
        ensures
            r.id == value.id,
            r.project_id == value.project_id,
            r.name == value.name,
            r.phc == value.phc,
            r.secret@ == value.secret@,
            r.created_at == value.created_at,
    {
        ProjectSecret {
            id: value.id,
            project_id: value.project_id,
            name: value.name,
            phc: value.phc,
            secret: value.secret,
            created_at: value.created_at,
        }
    }
}

#[derive(Debug, Clone)]
pub struct ProjectUserInvite {
    pub id: String,
    pub project_id: String,
    pub email: String,
    pub code: String,
    pub role: ProjectUserRole,
    pub status: ProjectUserInviteStatus,
    pub expires_in: i128,
    pub created_at: i128,
    pub updated_at: i128,
}

impl ProjectUserInvite {
    /// The invite that a `ProjectUserInviteCreated` event describes: sent, and last updated when
    /// it was created. Refused when the role is unknown.
    pub fn try_from(value: ProjectUserInviteCreated) -> (r: Result<ProjectUserInvite, Error>)
        ensures
            match spec_project_user_role_parse(value.role@) {
                Some(role) => r matches Ok(i) && i.id == value.id && i.project_id
                    == value.project_id && i.email == value.email && i.code == value.code
                    && i.role == role && i.status == ProjectUserInviteStatus::Sent
                    && i.expires_in == value.expires_in && i.created_at == value.created_at
                    && i.updated_at == value.created_at,
                None => r matches Err(e) && e is Unexpected && e.message()
                    == "project user role not supported: "@ + value.role@,
            },
    {
        let role = ProjectUserRole::from_str(value.role.as_str())?;
        Ok(ProjectUserInvite {
            id: value.id,
            project_id: value.project_id,
            email: value.email,
            code: value.code,
            role,
            status: ProjectUserInviteStatus::Sent,
            expires_in: value.expires_in,
            created_at: value.created_at,
            updated_at: value.created_at,
        })
    }
}

#[derive(Debug, Clone, Copy, PartialEq, Eq, Structural)]
pub enum ProjectUserInviteStatus {
    Sent,
    Accepted,
}

/// How an invite status is written.
pub open spec fn spec_invite_status_text(s: ProjectUserInviteStatus) -> Seq<char> {
    match s {
        ProjectUserInviteStatus::Sent => "sent"@,
        ProjectUserInviteStatus::Accepted => "accepted"@,
    }
}

/// The invite status that a text names.
pub open spec fn spec_invite_status_parse(s: Seq<char>) -> Option<ProjectUserInviteStatus> {
    if s == "sent"@ {
        Some(ProjectUserInviteStatus::Sent)
    } else if s == "accepted"@ {
        Some(ProjectUserInviteStatus::Accepted)
    } else {
        None
    }
}

impl ProjectUserInviteStatus {
    /// Reads an invite status; an unknown text is refused with
    /// `Unexpected("project user invite status not supported: <s>")`.
    pub fn from_str(s: &str) -> (r: Result<ProjectUserInviteStatus, Error>)
        ensures
            match spec_invite_status_parse(s@) {
                Some(st) => r == Ok::<ProjectUserInviteStatus, Error>(st),
                None => r matches Err(e) && e is Unexpected && e.message()
                    == "project user invite status not supported: "@ + s@,
            },
    {
        if str_eq(s, "sent") {
            Ok(ProjectUserInviteStatus::Sent)
        } else if str_eq(s, "accepted") {
            Ok(ProjectUserInviteStatus::Accepted)
        } else {
            Err(Error::Unexpected(concat("project user invite status not supported: ", s)))
        }
    }

    /// How the invite status is written.
    pub fn to_string(&self) -> (r: String)
        ensures
            r@ == spec_invite_status_text(*self),
    {
        match self {
            ProjectUserInviteStatus::Sent => owned("sent"),
            ProjectUserInviteStatus::Accepted => owned("accepted"),
        }
    }
}

/// Writing an invite status and reading it back gives the same status, and every text that
/// reads as a status is the way that status is written.
pub proof fn lemma_invite_status_roundtrip(s: ProjectUserInviteStatus, t: Seq<char>)
    ensures
        spec_invite_status_parse(spec_invite_status_text(s)) == Some(s),
        spec_invite_status_parse(t) matches Some(x) ==> spec_invite_status_text(x) == t,
{
    reveal_strlit("sent");
    reveal_strlit("accepted");
    assert("sent"@.len() == 4);
    assert("accepted"@.len() == 8);
}

#[derive(Debug, Clone)]
pub struct ProjectUser {
    pub user_id: String,
    pub project_id: String,
    pub role: ProjectUserRole,
    pub created_at: i128,
}

impl ProjectUser {
    /// The membership that a `ProjectUserInviteAccepted` event grants; refused when the role is
    /// unknown.
    pub fn try_from(value: ProjectUserInviteAccepted) -> (r: Result<ProjectUser, Error>)
        ensures
            match spec_project_user_role_parse(value.role@) {
                Some(role) => r matches Ok(u) && u.user_id == value.user_id && u.project_id
                    == value.project_id && u.role == role && u.created_at == value.created_at,
                None => r matches Err(e) && e is Unexpected && e.message()
                    == "project user role not supported: "@ + value.role@,
            },
    {
        let role = ProjectUserRole::from_str(value.role.as_str())?;
        Ok(ProjectUser {
            user_id: value.user_id,
            project_id: value.project_id,
            role,
            created_at: value.created_at,
        })
    }
}

/// A member of a project together with the name and email of their profile.
#[derive(Debug, Clone)]
pub struct ProjectUserAggregated {
    pub user_id: String,
    pub project_id: String,
    pub name: String,
    pub email: String,
    pub role: ProjectUserRole,
    pub created_at: i128,
}

#[derive(Debug, Clone, Copy, PartialEq, Eq, Structural)]
pub enum ProjectUserRole {
    Owner,
    Member,
}

/// How a role is written.
pub open spec fn spec_project_user_role_text(r: ProjectUserRole) -> Seq<char> {
    match r {
        ProjectUserRole::Owner => "owner"@,
        ProjectUserRole::Member => "member"@,
    }
}

/// The role that a text names.
pub open spec fn spec_project_user_role_parse(s: Seq<char>) -> Option<ProjectUserRole> {
    if s == "owner"@ {
        Some(ProjectUserRole::Owner)
    } else if s == "member"@ {
        Some(ProjectUserRole::Member)
    } else {
        None
    }
}

impl ProjectUserRole {
    /// Reads a role; an unknown text is refused with
    /// `Unexpected("project user role not supported: <s>")`.
    pub fn from_str(s: &str) -> (r: Result<ProjectUserRole, Error>)
        ensures
            match spec_project_user_role_parse(s@) {
                Some(role) => r == Ok::<ProjectUserRole, Error>(role),
                None => r matches Err(e) && e is Unexpected && e.message()
                    == "project user role not supported: "@ + s@,
            },
    {
        if str_eq(s, "owner") {
            Ok(ProjectUserRole::Owner)
        } else if str_eq(s, "member") {
            Ok(ProjectUserRole::Member)
        } else {
            Err(Error::Unexpected(concat("project user role not supported: ", s)))
        }
    }

    /// How the role is written.
    pub fn to_string(&self) -> (r: String)
        ensures
            r@ == spec_project_user_role_text(*self),
    {
        match self {
            ProjectUserRole::Owner => owned("owner"),
            ProjectUserRole::Member => owned("member"),
        }
    }
}

/// Writing a role and reading it back gives the same role, and every text that reads as a
/// role is the way that role is written.
pub proof fn lemma_project_user_role_roundtrip(r: ProjectUserRole, t: Seq<char>)
    ensures
        spec_project_user_role_parse(spec_project_user_role_text(r)) == Some(r),
        spec_project_user_role_parse(t) matches Some(x) ==> spec_project_user_role_text(x) == t,
{
    reveal_strlit("owner");
    reveal_strlit("member");
    assert("owner"@.len() == 5);
    assert("member"@.len() == 6);
}

} // verus!
