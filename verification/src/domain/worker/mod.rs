use vstd::prelude::*;

use super::error::{is_unexpected, Error};
use super::utils::{owned, str_eq};

pub mod command;
pub mod logs;
pub mod signer;

verus! {

/// A value stored by a worker under a key.
#[derive(Debug, Clone)]
pub struct KeyValue {
    pub worker_id: String,
    pub key: String,
    pub value: Vec<u8>,
    pub value_type: KeyValueType,
    pub secure: bool,
}

#[derive(Debug, Clone, Copy, PartialEq, Eq, Structural)]
pub enum KeyValueType {
    Text,
    Bytes,
    Int,
    Bool,
}

/// How a value type is written.
pub open spec fn spec_key_value_type_text(t: KeyValueType) -> Seq<char> {
    match t {
        KeyValueType::Text => "text"@,
        KeyValueType::Bytes => "bytes"@,
        KeyValueType::Int => "int"@,
        KeyValueType::Bool => "bool"@,
    }
}

/// The value type that a text names.
pub open spec fn spec_key_value_type_parse(s: Seq<char>) -> Option<KeyValueType> {
    if s == "text"@ {
        Some(KeyValueType::Text)
    } else if s == "bytes"@ {
        Some(KeyValueType::Bytes)
    } else if s == "int"@ {
        Some(KeyValueType::Int)
    } else if s == "bool"@ {
        Some(KeyValueType::Bool)
    } else {
        None
    }
}

impl KeyValueType {
    /// Reads a value type; an unknown text is refused with
    /// `Unexpected("key value type not supported")`.
    pub fn from_str(s: &str) -> (r: Result<KeyValueType, Error>)
        ensures
            match spec_key_value_type_parse(s@) {
                Some(t) => r == Ok::<KeyValueType, Error>(t),
                None => r matches Err(e) && is_unexpected(e, "key value type not supported"@),
            },
    {
        if str_eq(s, "text") {
            Ok(KeyValueType::Text)
        } else if str_eq(s, "bytes") {
            Ok(KeyValueType::Bytes)
        } else if str_eq(s, "int") {
            Ok(KeyValueType::Int)
        } else if str_eq(s, "bool") {
            Ok(KeyValueType::Bool)
        } else {
            Err(Error::Unexpected(owned("key value type not supported")))
        }
    }

    /// How the value type is written.
    pub fn to_string(&self) -> (r: String)
        ensures
            r@ == spec_key_value_type_text(*self),
    {
        match self {
            KeyValueType::Text => owned("text"),
            KeyValueType::Bytes => owned("bytes"),
            KeyValueType::Int => owned("int"),
            KeyValueType::Bool => owned("bool"),
        }
    }
}

/// Writing a value type and reading it back gives the same type, and every text that reads as
/// a type is the way that type is written.
pub proof fn lemma_key_value_type_roundtrip(t: KeyValueType, s: Seq<char>)
    ensures
        spec_key_value_type_parse(spec_key_value_type_text(t)) == Some(t),
        spec_key_value_type_parse(s) matches Some(x) ==> spec_key_value_type_text(x) == s,
{
    reveal_strlit("text");
    reveal_strlit("bytes");
    reveal_strlit("int");
    reveal_strlit("bool");
    assert("text"@.len() == 4);
    assert("bytes"@.len() == 5);
    assert("int"@.len() == 3);
    assert("bool"@.len() == 4);
    assert("text"@[0] != "bool"@[0]);
}

} // verus!
