//! The configuration: a JSON document whose member `files` lists the pairs,
//! each as an array that starts with the two paths.

use vstd::prelude::*;
use vstd::string::*;

verus! {

/// `serde_json::Value`: a JSON value, whatever it holds. Opaque.
#[verifier::external_type_specification]
#[verifier::external_body]
pub struct ExJsonValue(serde_json::Value);

/// The member `key` of the JSON object `value`: what `get` gives for a string
/// key. There is none where `value` is no object or has no such member.
pub uninterp spec fn json_member(value: serde_json::Value, key: Seq<char>) -> Option<
    serde_json::Value,
>;

/// The items of the JSON array `value`: what `as_array` gives. There are none
/// where `value` is no array.
pub uninterp spec fn json_items(value: serde_json::Value) -> Option<Seq<serde_json::Value>>;

/// The text of the JSON string `value`: what `as_str` gives. There is none
/// where `value` is no string.
pub uninterp spec fn json_text(value: serde_json::Value) -> Option<Seq<char>>;

/// `Value::get` with a string key.
#[verifier::external_body]
fn value_get<'a>(value: &'a serde_json::Value, key: &str) -> (member: Option<&'a serde_json::Value>)
    ensures
        (match member {
            Some(found) => json_member(*value, key@) == Some(*found),
            None => json_member(*value, key@) is None,
        }),
{
    value.get(key)
}

/// `Value::as_array`.
#[verifier::external_body]
fn value_as_array<'a>(value: &'a serde_json::Value) -> (items: Option<&'a Vec<serde_json::Value>>)
    ensures
        (match items {
            Some(found) => json_items(*value) == Some(found@),
            None => json_items(*value) is None,
        }),
{
    value.as_array()
}

/// `Value::as_str`.
#[verifier::external_body]
fn value_as_str<'a>(value: &'a serde_json::Value) -> (text: Option<&'a str>)
    ensures
        (match text {
            Some(found) => json_text(*value) == Some(found@),
            None => json_text(*value) is None,
        }),
{
    value.as_str()
}

/// The entries that `config` declares: the items of its member `files`.
pub open spec fn entries_of(config: serde_json::Value) -> Option<Seq<serde_json::Value>> {
    match json_member(config, "files"@) {
        Some(files) => json_items(files),
        None => None,
    }
}

/// The two paths that `entry` declares: its first two items, which must be
/// strings. What follows them is not looked at.
pub open spec fn paths_of(entry: serde_json::Value) -> Option<(Seq<char>, Seq<char>)> {
    match json_items(entry) {
        Some(items) => if items.len() >= 2 {
            match (json_text(items[0]), json_text(items[1])) {
                (Some(side_a), Some(side_b)) => Some((side_a, side_b)),
                _ => None,
            }
        } else {
            None
        },
        None => None,
    }
}

/// The entries of a configuration, in the order in which they are declared.
/// There are none where the document has no member `files` or that member is
/// no array.
pub fn declared_entries<'a>(config: &'a serde_json::Value) -> (entries: Option<
    &'a Vec<serde_json::Value>,
>)
    ensures
        (match entries {
            Some(found) => entries_of(*config) == Some(found@),
            None => entries_of(*config) is None,
        }),
{
    match value_get(config, "files") {
        Some(files) => value_as_array(files),
        None => None,
    }
}

/// The two paths of one entry, side A first. There are none where the entry
/// is no array or does not start with two strings.
pub fn declared_paths(entry: &serde_json::Value) -> (paths: Option<(String, String)>)
    ensures
        (match paths {
            Some((side_a, side_b)) => paths_of(*entry) == Some((side_a@, side_b@)),
            None => paths_of(*entry) is None,
        }),
{
    let items = match value_as_array(entry) {
        Some(items) => items,
        None => {
            return None;
        },
    };
    if items.len() < 2 {
        return None;
    }
    match (value_as_str(&items[0]), value_as_str(&items[1])) {
        (Some(side_a), Some(side_b)) => Some((String::from_str(side_a), String::from_str(side_b))),
        _ => None,
    }
}

} // verus!
