use vstd::prelude::*;

pub mod command;

verus! {

/// A log line of a worker; `timestamp` is in nanoseconds since the Unix epoch, UTC.
#[derive(Debug, Clone)]
pub struct Log {
    pub worker_id: String,
    pub timestamp: i128,
    pub level: String,
    pub message: String,
    pub context: String,
}

/// Which way to read logs from the cursor.
#[derive(Debug, Clone, Copy, PartialEq, Eq, Structural)]
pub enum FetchDirection {
    Prev,
    Next,
}

} // verus!
