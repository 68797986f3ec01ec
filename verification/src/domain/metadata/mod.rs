use vstd::prelude::*;

use super::error::{is_unexpected, Error};
use super::utils::{concat, str_eq};

verus! {

/// Status fields of a resource whose value the platform generates when the resource is
/// created.
#[derive(Debug, Clone, Copy, PartialEq, Eq, Structural)]
pub enum KnownField {
    AuthToken,
    Username,
    Password,
}

/// The status field that a CRD property name denotes.
pub open spec fn spec_known_field_parse(s: Seq<char>) -> Option<KnownField> {
    if s == "authToken"@ {
        Some(KnownField::AuthToken)
    } else if s == "username"@ {
        Some(KnownField::Username)
    } else if s == "password"@ {
        Some(KnownField::Password)
    } else {
        None
    }
}

impl KnownField {
    /// Reads a status field name; any other is refused with
    /// `Unexpected("status field <s> not supported")`.
    pub fn from_str(s: &str) -> (r: Result<KnownField, Error>)
        ensures
            match spec_known_field_parse(s@) {
                Some(f) => r == Ok::<KnownField, Error>(f),
                None => r matches Err(e) && is_unexpected(
                    e,
                    "status field "@ + s@ + " not supported"@,
                ),
            },
    {
        if str_eq(s, "authToken") {
            Ok(KnownField::AuthToken)
        } else if str_eq(s, "username") {
            Ok(KnownField::Username)
        } else if str_eq(s, "password") {
            Ok(KnownField::Password)
        } else {
            let m = concat("status field ", s);
            Err(Error::Unexpected(concat(m.as_str(), " not supported")))
        }
    }
}

} // verus!
