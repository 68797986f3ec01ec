use vstd::prelude::*;

pub mod command;

verus! {

/// A signing key held for a worker.
#[derive(Debug, Clone)]
pub struct Signer {
    pub worker_id: String,
    pub key_name: String,
}

} // verus!
