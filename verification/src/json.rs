//! What the library reads from the free-form JSON attached to an entry.
//!
//! The JSON value itself is `serde_json`'s and opaque to the proofs. The
//! functions here hand out its members as plain texts; their contracts are
//! taken on trust from `serde_json`'s accessors.

use vstd::prelude::*;

verus! {

#[verifier::external_type_specification]
#[verifier::external_body]
pub struct ExJsonValue(serde_json::Value);

/// One member of a JSON object, as far as the library looks at it.
pub enum JsonMember {
    /// A JSON string, with its characters.
    Text(Seq<char>),
    /// A JSON array, with its items in order: the characters of an item
    /// that is a string, `None` for any other item.
    List(Seq<Option<Seq<char>>>),
    /// Any other JSON value.
    Other,
}

/// Whether a JSON value is an object.
pub uninterp spec fn json_is_object(v: serde_json::Value) -> bool;

/// The members of a JSON object by key; the empty map for a value that is
/// no object.
pub uninterp spec fn json_members(v: serde_json::Value) -> Map<Seq<char>, JsonMember>;

/// `Value::as_object` of serde_json, which is `Some` exactly for an object.
#[verifier::external_body]
pub(crate) fn is_object(v: &serde_json::Value) -> (r: bool)
    ensures
        r == json_is_object(*v),
{
    v.as_object().is_some()
}

/// `Map::get` of serde_json on the object `v`, then `Value::as_str`: the
/// text of the member `key`, where `v` is an object that has such a member
/// and the member is a string.
#[verifier::external_body]
pub(crate) fn member_text(v: &serde_json::Value, key: &str) -> (r: Option<String>)
    ensures
        (r is Some) == (json_members(*v).contains_key(key@) && json_members(*v)[key@] is Text),
        r matches Some(s) ==> json_members(*v)[key@] == JsonMember::Text(s@),
{
    match v.as_object() {
        Some(map) => match map.get(key) {
            Some(member) => match member.as_str() {
                Some(s) => Some(s.to_string()),
                None => None,
            },
            None => None,
        },
        None => None,
    }
}

/// `Map::get` of serde_json on the object `v`, then `Value::as_array`: how
/// many items the member `key` has, where `v` is an object that has such a
/// member and the member is an array.
#[verifier::external_body]
pub(crate) fn member_len(v: &serde_json::Value, key: &str) -> (r: Option<usize>)
    ensures
        (r is Some) == (json_members(*v).contains_key(key@) && json_members(*v)[key@] is List),
        r matches Some(n) ==> json_members(*v)[key@]->List_0.len() == n,
{
    match v.as_object() {
        Some(map) => match map.get(key) {
            Some(member) => match member.as_array() {
                Some(items) => Some(items.len()),
                None => None,
            },
            None => None,
        },
        None => None,
    }
}

/// `Map::get` of serde_json on the object `v`, `Value::as_array`, and
/// `Value::as_str` on the item at `index`: the text of that item where it
/// is a string.
#[verifier::external_body]
pub(crate) fn member_item(v: &serde_json::Value, key: &str, index: usize) -> (r: Option<String>)
    requires
        json_members(*v).contains_key(key@),
        json_members(*v)[key@] is List,
        index < json_members(*v)[key@]->List_0.len(),
    ensures
        (r is Some) == (json_members(*v)[key@]->List_0[index as int] is Some),
        r matches Some(s) ==> json_members(*v)[key@]->List_0[index as int] == Some(s@),
{
    match v.as_object() {
        Some(map) => match map.get(key) {
            Some(member) => match member.as_array() {
                Some(items) => match items[index].as_str() {
                    Some(s) => Some(s.to_string()),
                    None => None,
                },
                None => None,
            },
            None => None,
        },
        None => None,
    }
}

} // verus!
