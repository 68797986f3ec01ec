use vstd::prelude::*;

use crate::domain::auth::Credential;

verus! {

#[derive(Debug, Clone)]
pub struct ListCmd {
    pub credential: Credential,
    pub worker_id: String,
}

impl ListCmd {
    pub fn new(credential: Credential, worker_id: String) -> (r: Self)
        ensures
            r.credential == credential,
            r.worker_id == worker_id,
    {
        ListCmd { credential, worker_id }
    }
}

#[derive(Debug, Clone)]
pub struct GetPublicKeyCmd {
    pub credential: Credential,
    pub worker_id: String,
    pub key_name: String,
}

impl GetPublicKeyCmd {
    pub fn new(credential: Credential, worker_id: String, key_name: String) -> (r: Self)
        ensures
            r.credential == credential,
            r.worker_id == worker_id,
            r.key_name == key_name,
    {
        GetPublicKeyCmd { credential, worker_id, key_name }
    }
}

#[derive(Debug, Clone)]
pub struct SignPayloadCmd {
    pub credential: Credential,
    pub worker_id: String,
    pub key_name: String,
    pub payload: Vec<u8>,
}

impl SignPayloadCmd {
    pub fn new(credential: Credential, worker_id: String, key_name: String, payload: Vec<u8>) -> (r:
        Self)
        ensures
            r.credential == credential,
            r.worker_id == worker_id,
            r.key_name == key_name,
            r.payload == payload,
    {
        SignPayloadCmd { credential, worker_id, key_name, payload }
    }
}

} // verus!
