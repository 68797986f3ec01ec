use vstd::prelude::*;

verus! {

/// Errors of the domain layer; each carries a human readable message.
#[derive(Debug)]
pub enum Error {
    Unauthorized(String),
    CommandMalformed(String),
    SecretExceeded(String),
    Unexpected(String),
}

impl Error {
    /// The message carried by the error.
    pub open spec fn message(self) -> Seq<char> {
        match self {
            Error::Unauthorized(m) => m@,
            Error::CommandMalformed(m) => m@,
            Error::SecretExceeded(m) => m@,
            Error::Unexpected(m) => m@,
        }
    }

    /// What the error prints: its message alone.
    pub fn to_string(&self) -> (s: String)
        ensures
            s@ == self.message(),
    {
        match self {
            Error::Unauthorized(m) => m.clone(),
            Error::CommandMalformed(m) => m.clone(),
            Error::SecretExceeded(m) => m.clone(),
            Error::Unexpected(m) => m.clone(),
        }
    }
}

/// `e` is a malformed command answered with message `m`.
pub open spec fn is_malformed(e: Error, m: Seq<char>) -> bool {
    e is CommandMalformed && e.message() == m
}

/// `e` is a refused authorization answered with message `m`.
pub open spec fn is_unauthorized(e: Error, m: Seq<char>) -> bool {
    e is Unauthorized && e.message() == m
}

/// `e` is an unexpected failure answered with message `m`.
pub open spec fn is_unexpected(e: Error, m: Seq<char>) -> bool {
    e is Unexpected && e.message() == m
}

/// `e` is an exceeded secret limit answered with message `m`.
pub open spec fn is_secret_exceeded(e: Error, m: Seq<char>) -> bool {
    e is SecretExceeded && e.message() == m
}

/// Unwraps `opt`, or answers `CommandMalformed(msg)` when it is empty.
pub fn require<T>(opt: Option<T>, msg: &str) -> (r: Result<T, Error>)
    ensures
        match opt {
            Some(x) => r == Ok::<T, Error>(x),
            None => r matches Err(e) && is_malformed(e, msg@),
        },
{
    match opt {
        Some(x) => Ok(x),
        None => Err(Error::CommandMalformed(msg.to_owned())),
    }
}

} // verus!
