use vstd::prelude::*;

use super::error::Error;
use super::project::{ProjectUser, ProjectUserRole};
use super::utils::{concat, owned, str_eq};

verus! {

pub type UserId = String;
pub type SecretId = String;

/// Who issues a command: a user signed in through Auth0, or a project API key, which carries
/// the id of the project it belongs to.
#[derive(Debug, Clone)]
pub enum Credential {
    Auth0(UserId),
    ApiKey(SecretId),
}

/// A user profile as Auth0 returns it.
#[derive(Debug, Clone)]
pub struct Auth0Profile {
    pub user_id: String,
    pub name: String,
    pub email: String,
}

/// Whether `credential` may act on the project `project_id`, given `permission`, the
/// membership that the project cache holds for the credential's user in that project (looked up
/// only for an Auth0 credential). A user needs a membership, and the required role when one is
/// asked for; an API key acts only on its own project.
pub open spec fn spec_permitted(
    credential: Credential,
    project_id: Seq<char>,
    role: Option<ProjectUserRole>,
    permission: Option<ProjectUser>,
) -> bool {
    match credential {
        Credential::Auth0(_) => match permission {
            None => false,
            Some(p) => match role {
                None => true,
                Some(r) => r == p.role,
            },
        },
        Credential::ApiKey(secret_project_id) => project_id == secret_project_id@,
    }
}

/// The message with which a refused credential is answered.
pub open spec fn spec_refusal_message(credential: Credential) -> Seq<char> {
    match credential {
        Credential::Auth0(_) => "user doesnt have permission"@,
        Credential::ApiKey(_) => "secret doesnt have permission"@,
    }
}

/// The lookup that deciding a permission needs: the user whose membership in the project must
/// be read from the cache, or nothing for an API key.
pub fn permission_lookup(credential: &Credential) -> (r: Option<UserId>)
    ensures
        match *credential {
            Credential::Auth0(u) => r == Some(u),
            Credential::ApiKey(_) => r is None,
        },
{
    match credential {
        Credential::Auth0(user_id) => Some(user_id.clone()),
        Credential::ApiKey(_) => None,
    }
}

/// Decides whether `credential` may act on `project_id` (see `spec_permitted`); a refusal is
/// `Unauthorized` with the message of `spec_refusal_message`.
pub fn assert_permission(
    credential: &Credential,
    project_id: &str,
    role: Option<ProjectUserRole>,
    permission: &Option<ProjectUser>,
) -> (r: Result<(), Error>)
    ensures
        r is Ok <==> spec_permitted(*credential, project_id@, role, *permission),
        r matches Err(e) ==> e is Unauthorized && e.message() == spec_refusal_message(*credential),
{
    match credential {
        Credential::Auth0(_) => {
            match permission {
                None => Err(Error::Unauthorized(owned("user doesnt have permission"))),
                Some(p) => match role {
                    Some(role) => {
                        if role != p.role {
                            return Err(Error::Unauthorized(owned("user doesnt have permission")));
                        }
                        Ok(())
                    },
                    None => Ok(()),
                },
            }
        },
        Credential::ApiKey(secret_project_id) => {
            if !str_eq(project_id, secret_project_id.as_str()) {
                return Err(Error::Unauthorized(owned("secret doesnt have permission")));
            }
            Ok(())
        },
    }
}

/// The Auth0 search query that finds the profile of one user: `user_id:<id>`.
pub fn user_id_query(user_id: &str) -> (q: String)
    ensures
        q@ == "user_id:"@ + user_id@,
{
    concat("user_id:", user_id)
}

/// The first profile of a search that must find one; an empty result is refused with
/// `Unexpected("Invalid user_id")`.
pub fn first_profile(profiles: Vec<Auth0Profile>) -> (r: Result<Auth0Profile, Error>)
    ensures
        profiles.len() > 0 ==> r == Ok::<Auth0Profile, Error>(profiles[0]),
        profiles.len() == 0 ==> (r matches Err(e) && e is Unexpected && e.message()
            == "Invalid user_id"@),
{
    if profiles.len() == 0 {
        return Err(Error::Unexpected(owned("Invalid user_id")));
    }
    let mut profiles = profiles;
    let p = profiles.swap_remove(0);
    Ok(p)
}

} // verus!
