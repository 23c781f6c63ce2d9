//! JSON documents as read through `serde_json`, with a mathematical model
//! of their contents.

use vstd::prelude::*;

verus! {

#[verifier::external_type_specification]
#[verifier::external_body]
pub struct ExJsonValue(serde_json::Value);

/// What a JSON value holds. Numbers are kept without their value, which
/// nothing in this library reads.
pub enum JsonTree {
    Null,
    Bool(bool),
    Number,
    Str(Seq<char>),
    Array(Seq<JsonTree>),
    Object(Map<Seq<char>, JsonTree>),
}

/// The contents of a `serde_json::Value`.
pub uninterp spec fn json_tree(v: serde_json::Value) -> JsonTree;

/// What `serde_json::from_str` makes of a text: the document it holds, or,
/// for a text that is not JSON, the parser's description of the error.
pub uninterp spec fn parsed_json(text: Seq<char>) -> Result<JsonTree, Seq<char>>;

/// `value[key]` on a JSON value: the member named `key` of an object, and
/// `null` for a missing member or for a value that is not an object.
pub open spec fn member(t: JsonTree, key: Seq<char>) -> JsonTree {
    match t {
        JsonTree::Object(m) => if m.contains_key(key) { m[key] } else { JsonTree::Null },
        _ => JsonTree::Null,
    }
}

/// The characters of a JSON string (empty for any other value).
pub open spec fn str_of(t: JsonTree) -> Seq<char> {
    match t {
        JsonTree::Str(s) => s,
        _ => Seq::empty(),
    }
}

/// `serde_json::from_str::<serde_json::Value>`, its error turned into text
/// by `Display`: it succeeds exactly on the texts that `parsed_json` maps to
/// a document, and returns a value holding that document, or the error's
/// description that `parsed_json` names.
#[verifier::external_body]
pub(crate) fn parse_json(text: &str) -> (r: Result<serde_json::Value, String>)
    ensures
        match parsed_json(text@) {
            Ok(doc) => r matches Ok(v) && json_tree(v) == doc,
            Err(msg) => r matches Err(e) && e@ == msg,
        },
{
    match serde_json::from_str::<serde_json::Value>(text) {
        Ok(v) => Ok(v),
        Err(e) => Err(e.to_string()),
    }
}

/// `Index<&str>` for `serde_json::Value` (`value[key]`): it looks the key
/// up in the object's map and falls back to a static `null`.
#[verifier::external_body]
pub(crate) fn json_member<'a>(v: &'a serde_json::Value, key: &str) -> (r: &'a serde_json::Value)
    ensures
        json_tree(*r) == member(json_tree(*v), key@),
{
    &v[key]
}

/// `serde_json::Value::as_str`: the string of a `String` value, `None` for
/// any other value.
#[verifier::external_body]
pub(crate) fn json_as_str(v: &serde_json::Value) -> (r: Option<&str>)
    ensures
        match json_tree(*v) {
            JsonTree::Str(s) => r matches Some(x) && x@ == s,
            _ => r is None,
        },
{
    v.as_str()
}

/// `serde_json::Value::as_array`: the elements of an `Array` value, in order,
/// `None` for any other value.
#[verifier::external_body]
pub(crate) fn json_as_array(v: &serde_json::Value) -> (r: Option<&Vec<serde_json::Value>>)
    ensures
        match json_tree(*v) {
            JsonTree::Array(items) => r matches Some(a) && a@.len() == items.len() && (forall|i: int|
                0 <= i < items.len() ==> json_tree(#[trigger] a@[i]) == items[i]),
            _ => r is None,
        },
{
    v.as_array()
}

/// `serde_json::Value::is_null`: true exactly for the `Null` value.
#[verifier::external_body]
pub(crate) fn json_is_null(v: &serde_json::Value) -> (r: bool)
    ensures
        r == (json_tree(*v) is Null),
{
    v.is_null()
}

/// Whether `members` lists the members of the object `m`: each pair is a
/// member name with its value, and every member is listed.
pub open spec fn lists_members(m: Map<Seq<char>, JsonTree>, members: Seq<(&String, &serde_json::Value)>) -> bool {
    &&& forall|i: int| 0 <= i < members.len() ==> m.contains_key((#[trigger] members[i]).0@)
        && m[members[i].0@] == json_tree(*members[i].1)
    &&& forall|k: Seq<char>| m.contains_key(k) ==> exists|i: int| 0 <= i < members.len() && (#[trigger] members[i]).0@ == k
}

/// `serde_json::Value::as_object`, with the object's map walked by
/// `serde_json::Map::iter` into a list of (name, value) pairs: `None` for a
/// value that is not an object. The order of the pairs is not stated.
#[verifier::external_body]
pub(crate) fn json_object_members(v: &serde_json::Value) -> (r: Option<Vec<(&String, &serde_json::Value)>>)
    ensures
        match json_tree(*v) {
            JsonTree::Object(m) => r matches Some(members) && lists_members(m, members@),
            _ => r is None,
        },
{
    match v.as_object() {
        Some(map) => Some(map.iter().collect()),
        None => None,
    }
}

} // verus!
