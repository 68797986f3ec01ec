use vstd::prelude::*;

use crate::domain::auth::Credential;
use crate::domain::error::{is_malformed, Error};
use crate::domain::project::command::{page_of, spec_or};
use crate::domain::{PAGE_SIZE_DEFAULT, PAGE_SIZE_MAX};

use super::KeyValue;

verus! {

#[derive(Debug, Clone)]
pub struct FetchCmd {
    pub credential: Credential,
    pub worker_id: String,
    pub page: u32,
    pub page_size: u32,
}

impl FetchCmd {
    /// A page of a worker's stored values (see `page_of` for the paging rules).
    pub fn new(
        credential: Credential,
        worker_id: String,
        page: Option<u32>,
        page_size: Option<u32>,
    ) -> (r: Result<Self, Error>)
        ensures
            (r is Ok) <==> (spec_or(page_size, PAGE_SIZE_DEFAULT) < PAGE_SIZE_MAX),
            r matches Ok(c) ==> (c.credential == credential && c.worker_id == worker_id && c.page
                == spec_or(page, 1u32) && c.page_size == spec_or(page_size, PAGE_SIZE_DEFAULT)),
            r matches Err(e) ==> is_malformed(e, "page_size exceeded the limit of 120"@),
    {
        let (page, page_size) = page_of(page, page_size)?;
        Ok(FetchCmd { credential, worker_id, page, page_size })
    }
}

#[derive(Debug, Clone)]
pub struct UpdateCmd {
    pub credential: Credential,
    pub key_value: KeyValue,
}

impl UpdateCmd {
    pub fn new(credential: Credential, key_value: KeyValue) -> (r: Self)
        ensures
            r.credential == credential,
            r.key_value == key_value,
    {
        UpdateCmd { credential, key_value }
    }
}

#[derive(Debug, Clone)]
pub struct DeleteCmd {
    pub credential: Credential,
    pub worker_id: String,
    pub key: String,
}

impl DeleteCmd {
    pub fn new(credential: Credential, worker_id: String, key: String) -> (r: Self)
        ensures
            r.credential == credential,
            r.worker_id == worker_id,
            r.key == key,
    {
        DeleteCmd { credential, worker_id, key }
    }
}

} // verus!
