//! The fields that winch reads from the JSON documents it is handed: the
//! install manifest of a package, the record of an installed package, and
//! the answers of the package index.

use vstd::prelude::*;
use crate::json::{
    json_tree, parsed_json, member, str_of, JsonTree, parse_json, json_member, json_as_str, json_as_array,
    json_is_null, json_object_members, lists_members,
};
use crate::text::{owned, trim, trim_spec};

verus! {

/// Why a document could not give what was asked of it.
#[derive(Debug)]
pub enum ManifestError {
    /// The text is not JSON; the parser's description of the error.
    Json(String),
    /// `build_steps` is not an array.
    NotAnArray,
    /// An element of `build_steps` is not a string.
    NotAString,
    /// A field that must hold a string is absent or holds something else.
    Missing,
}

impl ManifestError {
    /// The error as a sentence: for a text that is not JSON, the parser's
    /// own description.
    pub fn message(&self) -> (r: String)
        ensures
            self matches ManifestError::Json(m) ==> r@ == m@,
            self is NotAnArray ==> r@ == "build_steps is not an array"@,
            self is NotAString ==> r@ == "step is not a string"@,
            self is Missing ==> r@ == "required field not found in json"@,
    {
        match self {
            ManifestError::Json(m) => m.clone(),
            ManifestError::NotAnArray => owned("build_steps is not an array"),
            ManifestError::NotAString => owned("step is not a string"),
            ManifestError::Missing => owned("required field not found in json"),
        }
    }
}

/// A `ManifestError` as plain values.
pub enum ManifestFault {
    Json(Seq<char>),
    NotAnArray,
    NotAString,
    Missing,
}

pub open spec fn fault(e: ManifestError) -> ManifestFault {
    match e {
        ManifestError::Json(m) => ManifestFault::Json(m@),
        ManifestError::NotAnArray => ManifestFault::NotAnArray,
        ManifestError::NotAString => ManifestFault::NotAString,
        ManifestError::Missing => ManifestFault::Missing,
    }
}

/// A result read as texts and fault kinds.
pub open spec fn text_outcome(r: Result<String, ManifestError>) -> Result<Seq<char>, ManifestFault> {
    match r {
        Ok(s) => Ok(s@),
        Err(e) => Err(fault(e)),
    }
}

/// A list result read as texts and fault kinds.
pub open spec fn list_outcome(r: Result<Vec<String>, ManifestError>) -> Result<Seq<Seq<char>>, ManifestFault> {
    match r {
        Ok(v) => Ok(v@.map_values(|s: String| s@)),
        Err(e) => Err(fault(e)),
    }
}

pub open spec fn all_strings(items: Seq<JsonTree>) -> bool {
    forall|i: int| 0 <= i < items.len() ==> #[trigger] items[i] is Str
}

/// The build steps of an install manifest: the strings of its
/// `build_steps` array, in order.
pub open spec fn steps_of(doc: JsonTree) -> Result<Seq<Seq<char>>, ManifestFault> {
    match member(doc, "build_steps"@) {
        JsonTree::Array(items) => if all_strings(items) {
            Ok(items.map_values(|t: JsonTree| str_of(t)))
        } else {
            Err(ManifestFault::NotAString)
        },
        _ => Err(ManifestFault::NotAnArray),
    }
}

/// Reads the `build_steps` of an install manifest, in order.
pub fn build_steps(doc: &serde_json::Value) -> (r: Result<Vec<String>, ManifestError>)
    ensures
        list_outcome(r) == steps_of(json_tree(*doc)),
{
    let field = json_member(doc, "build_steps");
    let items = match json_as_array(field) {
        Some(a) => a,
        None => return Err(ManifestError::NotAnArray),
    };
    let ghost trees = match member(json_tree(*doc), "build_steps"@) {
        JsonTree::Array(t) => t,
        _ => Seq::empty(),
    };
    let mut steps: Vec<String> = Vec::new();
    let mut i: usize = 0;
    while i < items.len()
        invariant
            member(json_tree(*doc), "build_steps"@) == JsonTree::Array(trees),
            items@.len() == trees.len(),
            forall|k: int| 0 <= k < trees.len() ==> json_tree(#[trigger] items@[k]) == trees[k],
            i <= items@.len(),
            steps@.len() == i,
            forall|k: int| 0 <= k < i ==> trees[k] is Str,
            forall|k: int| 0 <= k < i ==> #[trigger] steps@[k]@ == str_of(trees[k]),
        decreases items@.len() - i,
    {
        match json_as_str(&items[i]) {
            Some(s) => {
                steps.push(owned(s));
            },
            None => {
                assert(!(trees[i as int] is Str));
                assert(!all_strings(trees));
                return Err(ManifestError::NotAString);
            },
        }
        i = i + 1;
    }
    assert(all_strings(trees));
    assert(steps@.map_values(|s: String| s@) =~= trees.map_values(|t: JsonTree| str_of(t)));
    Ok(steps)
}

/// Parses an install manifest and reads its `build_steps`.
pub fn build_steps_from_text(text: &str) -> (r: Result<Vec<String>, ManifestError>)
    ensures
        list_outcome(r) == match parsed_json(text@) {
            Ok(doc) => steps_of(doc),
            Err(msg) => Err(ManifestFault::Json(msg)),
        },
{
    match parse_json(text) {
        Ok(doc) => build_steps(&doc),
        Err(e) => Err(ManifestError::Json(e)),
    }
}

/// The string held by the member `key` of a document.
pub open spec fn string_member_of(doc: JsonTree, key: Seq<char>) -> Result<Seq<char>, ManifestFault> {
    match member(doc, key) {
        JsonTree::Str(s) => Ok(s),
        _ => Err(ManifestFault::Missing),
    }
}

/// Reads the string held by the member `key` of a document.
pub fn string_member(doc: &serde_json::Value, key: &str) -> (r: Result<String, ManifestError>)
    ensures
        text_outcome(r) == string_member_of(json_tree(*doc), key@),
{
    match json_as_str(json_member(doc, key)) {
        Some(s) => Ok(owned(s)),
        None => Err(ManifestError::Missing),
    }
}

/// The string member `key` of the document that `text` holds.
pub open spec fn string_member_in(text: Seq<char>, key: Seq<char>) -> Result<Seq<char>, ManifestFault> {
    match parsed_json(text) {
        Ok(doc) => string_member_of(doc, key),
        Err(msg) => Err(ManifestFault::Json(msg)),
    }
}

fn string_member_from_text(text: &str, key: &str) -> (r: Result<String, ManifestError>)
    ensures
        text_outcome(r) == string_member_in(text@, key@),
{
    match parse_json(text) {
        Ok(doc) => string_member(&doc, key),
        Err(e) => Err(ManifestError::Json(e)),
    }
}

/// Reads `executable_dir` from an install manifest: the directory, inside
/// the unpacked package, that holds the programs to install. A manifest
/// without it gives `Missing`; the program stops on that error.
pub fn executable_dir_from_text(text: &str) -> (r: Result<String, ManifestError>)
    ensures
        text_outcome(r) == string_member_in(text@, "executable_dir"@),
{
    string_member_from_text(text, "executable_dir")
}

/// Reads `binary_name` from the record of an installed package. A record
/// that is not JSON, or has no string `binary_name`, gives an error; the
/// program stops on it before removing anything.
pub fn binary_name_from_text(text: &str) -> (r: Result<String, ManifestError>)
    ensures
        text_outcome(r) == string_member_in(text@, "binary_name"@),
{
    string_member_from_text(text, "binary_name")
}

/// Reads `zipball_url` from a release description: where the package's
/// archive can be fetched. On an error the program stops.
pub fn zipball_url_from_text(text: &str) -> (r: Result<String, ManifestError>)
    ensures
        text_outcome(r) == string_member_in(text@, "zipball_url"@),
{
    string_member_from_text(text, "zipball_url")
}

/// The elements of `items` that are not `null`, in order.
pub open spec fn non_null(items: Seq<JsonTree>) -> Seq<JsonTree>
    decreases items.len(),
{
    if items.len() == 0 {
        Seq::empty()
    } else if items.last() is Null {
        non_null(items.drop_last())
    } else {
        non_null(items.drop_last()).push(items.last())
    }
}

/// The author of a package and its latest version: the last of its
/// `versions` that is not `null`, which must be a string.
pub open spec fn release_of(doc: JsonTree) -> Option<(Seq<char>, Seq<char>)> {
    match member(doc, "author"@) {
        JsonTree::Str(author) => match member(doc, "versions"@) {
            JsonTree::Array(items) => {
                let present = non_null(items);
                if present.len() > 0 && present.last() is Str {
                    Some((author, str_of(present.last())))
                } else {
                    None
                }
            },
            _ => None,
        },
        _ => None,
    }
}

/// A published release of a package.
pub struct Release {
    pub author: String,
    pub version: String,
}

/// A result read as author, version and fault kind.
pub open spec fn release_outcome(r: Result<Release, ManifestError>) -> Result<(Seq<char>, Seq<char>), ManifestFault> {
    match r {
        Ok(rel) => Ok((rel.author@, rel.version@)),
        Err(e) => Err(fault(e)),
    }
}

/// Reads the author and the latest version from a package description.
pub fn release(doc: &serde_json::Value) -> (r: Result<Release, ManifestError>)
    ensures
        release_outcome(r) == match release_of(json_tree(*doc)) {
            Some(p) => Ok(p),
            None => Err(ManifestFault::Missing),
        },
{
    let author = match json_as_str(json_member(doc, "author")) {
        Some(a) => a,
        None => return Err(ManifestError::Missing),
    };
    let items = match json_as_array(json_member(doc, "versions")) {
        Some(a) => a,
        None => return Err(ManifestError::Missing),
    };
    let ghost trees = match member(json_tree(*doc), "versions"@) {
        JsonTree::Array(t) => t,
        _ => Seq::empty(),
    };
    let mut present: Vec<&serde_json::Value> = Vec::new();
    let mut i: usize = 0;
    while i < items.len()
        invariant
            items@.len() == trees.len(),
            forall|k: int| 0 <= k < trees.len() ==> json_tree(#[trigger] items@[k]) == trees[k],
            i <= items@.len(),
            present@.len() == non_null(trees.take(i as int)).len(),
            forall|k: int| 0 <= k < present@.len() ==>
                json_tree(*#[trigger] present@[k]) == non_null(trees.take(i as int))[k],
        decreases items@.len() - i,
    {
        assert(trees.take(i + 1).drop_last() =~= trees.take(i as int));
        let item = &items[i];
        if !json_is_null(item) {
            present.push(item);
        }
        i = i + 1;
    }
    assert(trees.take(items@.len() as int) =~= trees);
    if present.len() == 0 {
        return Err(ManifestError::Missing);
    }
    let latest = present[present.len() - 1];
    match json_as_str(latest) {
        Some(v) => Ok(Release { author: owned(author), version: owned(v) }),
        None => Err(ManifestError::Missing),
    }
}

/// Parses a package description, after trimming the text, and reads the
/// author and the latest version from it. Text that is not JSON gives
/// `Json`, which the program reports before giving up the install; a
/// description without an author or a string latest version gives
/// `Missing`, on which the program stops before any download.
pub fn release_from_text(text: &str) -> (r: Result<Release, ManifestError>)
    ensures
        release_outcome(r) == match parsed_json(trim_spec(text@)) {
            Ok(doc) => match release_of(doc) {
                Some(p) => Ok(p),
                None => Err(ManifestFault::Missing),
            },
            Err(msg) => Err(ManifestFault::Json(msg)),
        },
{
    match parse_json(trim(text)) {
        Ok(doc) => release(&doc),
        Err(e) => Err(ManifestError::Json(e)),
    }
}

/// Whether every member of an object holds a string.
pub open spec fn all_members_strings(m: Map<Seq<char>, JsonTree>) -> bool {
    forall|k: Seq<char>| m.contains_key(k) ==> (#[trigger] m[k]) is Str
}

/// The `download_url` of an answer of the package index, which must be an
/// object whose members are all strings.
pub open spec fn download_url_of(doc: JsonTree) -> Result<Seq<char>, ManifestFault> {
    match doc {
        JsonTree::Object(m) => if all_members_strings(m) && m.contains_key("download_url"@) {
            Ok(str_of(m["download_url"@]))
        } else {
            Err(ManifestFault::Missing)
        },
        _ => Err(ManifestFault::Missing),
    }
}

/// Reads `download_url` from an answer of the package index, an object of
/// strings.
pub fn download_url(doc: &serde_json::Value) -> (r: Result<String, ManifestError>)
    ensures
        text_outcome(r) == download_url_of(json_tree(*doc)),
{
    let members = match json_object_members(doc) {
        Some(ms) => ms,
        None => return Err(ManifestError::Missing),
    };
    let ghost m = match json_tree(*doc) {
        JsonTree::Object(m) => m,
        _ => Map::empty(),
    };
    let mut i: usize = 0;
    while i < members.len()
        invariant
            json_tree(*doc) == JsonTree::Object(m),
            lists_members(m, members@),
            i <= members@.len(),
            forall|k: int| 0 <= k < i ==> (m[(#[trigger] members@[k]).0@] is Str),
        decreases members@.len() - i,
    {
        let (_, value) = members[i];
        if json_as_str(value).is_none() {
            assert(m.contains_key(members@[i as int].0@));
            assert(!all_members_strings(m));
            return Err(ManifestError::Missing);
        }
        i = i + 1;
    }
    assert(all_members_strings(m)) by {
        assert forall|k: Seq<char>| m.contains_key(k) implies (#[trigger] m[k]) is Str by {
            let j = choose|j: int| 0 <= j < members@.len() && (#[trigger] members@[j]).0@ == k;
            assert(m[members@[j].0@] is Str);
        }
    }
    string_member(doc, "download_url")
}

/// Parses an answer of the package index and reads its `download_url`. An
/// answer that is not an object of strings, or lacks `download_url`,
/// gives an error; the program stops on it.
pub fn download_url_from_text(text: &str) -> (r: Result<String, ManifestError>)
    ensures
        text_outcome(r) == match parsed_json(text@) {
            Ok(doc) => download_url_of(doc),
            Err(msg) => Err(ManifestFault::Json(msg)),
        },
{
    match parse_json(text) {
        Ok(doc) => download_url(&doc),
        Err(e) => Err(ManifestError::Json(e)),
    }
}

} // verus!
