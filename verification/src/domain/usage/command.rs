use vstd::prelude::*;

use crate::domain::auth::Credential;
use crate::domain::error::{is_malformed, Error};
use crate::domain::project::command::{page_of, spec_or};
use crate::domain::{PAGE_SIZE_DEFAULT, PAGE_SIZE_MAX};

verus! {

#[derive(Debug, Clone)]
pub struct FetchCmd {
    pub credential: Credential,
    pub project_id: String,
    pub page: u32,
    pub page_size: u32,
}

impl FetchCmd {
    /// A page of a project's usage report (see `page_of` for the paging rules).
    pub fn new(
        credential: Credential,
        project_id: String,
        page: Option<u32>,
        page_size: Option<u32>,
    ) -> (r: Result<Self, Error>)
        ensures
            (r is Ok) <==> (spec_or(page_size, PAGE_SIZE_DEFAULT) < PAGE_SIZE_MAX),
            r matches Ok(c) ==> (c.credential == credential && c.project_id == project_id && c.page
                == spec_or(page, 1u32) && c.page_size == spec_or(page_size, PAGE_SIZE_DEFAULT)),
            r matches Err(e) ==> is_malformed(e, "page_size exceeded the limit of 120"@),
    {
        let (page, page_size) = page_of(page, page_size)?;
        Ok(FetchCmd { credential, project_id, page, page_size })
    }
}

} // verus!
