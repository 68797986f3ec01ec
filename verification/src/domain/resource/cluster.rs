use vstd::prelude::*;

use crate::domain::utils::{concat, owned, spec_to_lowercase, to_lowercase};

verus! {

/// The coordinates of a custom resource kind of the platform in the Kubernetes API.
#[derive(Debug, Clone)]
pub struct ApiResourceNames {
    pub kind: String,
    pub group: String,
    pub version: String,
    pub plural: String,
    pub api_version: String,
}

/// Every kind lives in group `demeter.run`, version `v1alpha1`; its plural is its lower-case
/// name followed by `s`.
pub fn build_api_resource(kind: &str) -> (r: ApiResourceNames)
    ensures
        r.kind@ == kind@,
        r.group@ == "demeter.run"@,
        r.version@ == "v1alpha1"@,
        r.plural@ == spec_to_lowercase(kind@) + "s"@,
        r.api_version@ == "demeter.run/v1alpha1"@,
{
    let lower = to_lowercase(kind);
    ApiResourceNames {
        kind: owned(kind),
        group: owned("demeter.run"),
        version: owned("v1alpha1"),
        plural: concat(lower.as_str(), "s"),
        api_version: owned("demeter.run/v1alpha1"),
    }
}

} // verus!
