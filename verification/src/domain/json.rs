use vstd::prelude::*;

verus! {

/// Whether `s` is a JSON document (`serde_json::from_str::<Value>` accepts it).
pub uninterp spec fn spec_json_parses(s: Seq<char>) -> bool;

/// Whether `s` is a JSON document whose top value is an object.
pub uninterp spec fn spec_json_is_object(s: Seq<char>) -> bool;

/// `serde_json::to_string` of the object that `s` parses to (members in serde_json's map
/// order).
pub uninterp spec fn spec_json_normalized(s: Seq<char>) -> Seq<char>;

/// Member `field` of the value that `s` parses to: absent (or the value is not an object),
/// present but not a string, or a string.
pub uninterp spec fn spec_json_member(s: Seq<char>, field: Seq<char>) -> Option<Option<Seq<char>>>;

/// `serde_json::to_string` of the object that `s` parses to, after inserting `key` with the
/// string `value`.
pub uninterp spec fn spec_json_insert_string(s: Seq<char>, key: Seq<char>, value: Seq<char>) -> Seq<char>;

/// What a text gives when read as a JSON object.
pub enum JsonObject {
    /// Not JSON.
    Invalid,
    /// JSON, but its top value is not an object.
    NotObject,
    /// An object, written back out by serde_json.
    Object(String),
}

/// What a member of a JSON document is.
pub enum JsonMember {
    /// Not JSON.
    Invalid,
    /// No such member (or the document is not an object).
    Absent,
    /// The member is not a string.
    NotString,
    /// The member is this string.
    Text(String),
}

/// Calls `serde_json::from_str::<Value>(s)` and, for an object, `serde_json::to_string` of its
/// map. Claimed: the variant follows `spec_json_parses` and `spec_json_is_object`, and an object
/// is written back as `spec_json_normalized`, itself an object.
#[verifier::external_body]
pub(crate) fn json_object(s: &str) -> (r: JsonObject)
    ensures
        (r is Invalid) <==> !spec_json_parses(s@),
        (r is NotObject) <==> (spec_json_parses(s@) && !spec_json_is_object(s@)),
        (r is Object) <==> spec_json_is_object(s@),
        r matches JsonObject::Object(t) ==> (spec_json_is_object(s@) && t@ == spec_json_normalized(s@) && spec_json_is_object(t@)),
{
    match serde_json::from_str::<serde_json::Value>(s) {
        Err(_) => JsonObject::Invalid,
        Ok(serde_json::Value::Object(map)) => match serde_json::to_string(&map) {
            Ok(t) => JsonObject::Object(t),
            Err(_) => JsonObject::Invalid,
        },
        Ok(_) => JsonObject::NotObject,
    }
}

/// Calls `serde_json::from_str::<Value>(s)`, `Value::get(field)` and `Value::as_str`. Claimed:
/// the variant and the text follow `spec_json_parses` and `spec_json_member`.
#[verifier::external_body]
pub(crate) fn json_member(s: &str, field: &str) -> (r: JsonMember)
    ensures
        (r is Invalid) <==> !spec_json_parses(s@),
        (r is Absent) <==> (spec_json_parses(s@) && spec_json_member(s@, field@) is None),
        (r is NotString) <==> (spec_json_parses(s@) && spec_json_member(s@, field@) == Some(None::<Seq<char>>)),
        r matches JsonMember::Text(t) ==> (spec_json_parses(s@) && spec_json_member(s@, field@) == Some(Some(t@))),
{
    match serde_json::from_str::<serde_json::Value>(s) {
        Err(_) => JsonMember::Invalid,
        Ok(value) => match value.get(field) {
            None => JsonMember::Absent,
            Some(v) => match v.as_str() {
                None => JsonMember::NotString,
                Some(t) => JsonMember::Text(t.to_string()),
            },
        },
    }
}

/// Calls `serde_json::from_str::<Map<String, Value>>(s)`, `Map::insert(key, Value::String(value))`
/// and `serde_json::to_string`. Claimed: the result is `spec_json_insert_string` of the
/// arguments and is again an object; read back, its member `key` is the string `value` and
/// every other member is what it was in `s` (`Map::insert` replaces the one entry under `key`,
/// and `to_string` writes the map so that parsing gives back its keys, its strings and which
/// values are strings). The input must be an object: otherwise parsing as a map fails.
#[verifier::external_body]
pub(crate) fn json_insert_string(s: &str, key: &str, value: &str) -> (r: String)
    requires
        spec_json_is_object(s@),
    ensures
        r@ == spec_json_insert_string(s@, key@, value@),
        spec_json_is_object(r@),
        spec_json_parses(r@),
        spec_json_member(r@, key@) == Some(Some(value@)),
        forall|k: Seq<char>| k != key@ ==> #[trigger] spec_json_member(r@, k) == spec_json_member(s@, k),
{
    let mut map: serde_json::Map<String, serde_json::Value> = serde_json::from_str(s).unwrap();
    map.insert(key.to_string(), serde_json::Value::String(value.to_string()));
    serde_json::to_string(&map).unwrap()
}

} // verus!
