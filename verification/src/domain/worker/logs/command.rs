use vstd::prelude::*;

use crate::domain::auth::Credential;
use crate::domain::error::{is_malformed, Error};
use crate::domain::project::command::spec_or;
use crate::domain::utils::owned;
use crate::domain::{PAGE_SIZE_DEFAULT, PAGE_SIZE_MAX};

use super::FetchDirection;

verus! {

#[derive(Debug, Clone)]
pub struct FetchCmd {
    pub credential: Credential,
    pub worker_id: String,
    pub cursor: i64,
    pub limit: i64,
    pub direction: FetchDirection,
}

impl FetchCmd {
    /// A read of a worker's logs from `cursor`: forward and `PAGE_SIZE_DEFAULT` lines when not
    /// told otherwise; a limit of `PAGE_SIZE_MAX` or more is refused with
    /// `CommandMalformed("limit exceeded the maximum of 120")`.
    pub fn new(
        credential: Credential,
        worker_id: String,
        cursor: i64,
        direction: Option<FetchDirection>,
        limit: Option<i64>,
    ) -> (r: Result<Self, Error>)
        ensures
            (r is Ok) <==> (spec_or(limit, PAGE_SIZE_DEFAULT as i64) < PAGE_SIZE_MAX),
            r matches Ok(c) ==> (c.credential == credential && c.worker_id == worker_id && c.cursor
                == cursor && c.limit == spec_or(limit, PAGE_SIZE_DEFAULT as i64) && c.direction
                == spec_or(direction, FetchDirection::Next)),
            r matches Err(e) ==> is_malformed(e, "limit exceeded the maximum of 120"@),
    {
        let limit = match limit {
            Some(l) => l,
            None => PAGE_SIZE_DEFAULT as i64,
        };
        let direction = match direction {
            Some(d) => d,
            None => FetchDirection::Next,
        };
        if limit >= PAGE_SIZE_MAX as i64 {
            return Err(Error::CommandMalformed(owned("limit exceeded the maximum of 120")));
        }
        Ok(FetchCmd { credential, worker_id, cursor, direction, limit })
    }
}

} // verus!
