//! JSON documents, as `serde_json` holds them. A document is opaque to the
//! verifier; what the readers in this crate prove is stated over its
//! mathematical value, `json_of`, and rests on the wrappers in this file,
//! which say what each accessor of `serde_json::Value` returns.

use vstd::prelude::*;

verus! {

/// Declares `serde_json::Value`, so that documents can be handed around.
/// Nothing is claimed of what a document holds.
#[verifier::external_type_specification]
#[verifier::external_body]
pub struct ExValue(serde_json::Value);

/// A JSON document as a mathematical value.
pub enum Json {
    Null,
    Bool(bool),
    /// A number. `integer` is its value where the document holds it as an
    /// integer, and `None` where it holds it as a float. `truncated` is what
    /// is left of the number, whichever way it is held, when it is taken as
    /// a float and the float is cut to a 64-bit integer.
    Number { integer: Option<int>, truncated: i64 },
    Text(Seq<char>),
    Array(Seq<Json>),
    Object(Map<Seq<char>, Json>),
}

/// Declares `serde_json::Map`, the members of an object. Nothing is claimed
/// of what a map holds.
#[verifier::external_type_specification]
#[verifier::external_body]
#[verifier::reject_recursive_types(K)]
#[verifier::reject_recursive_types(V)]
pub struct ExMap<K, V>(serde_json::Map<K, V>);

/// The value of a document: what `serde_json::Value` holds, as the
/// wrappers below read it.
pub uninterp spec fn json_of(v: serde_json::Value) -> Json;

/// The members that a map holds, by name.
pub uninterp spec fn members_of(map: serde_json::Map<String, serde_json::Value>) -> Map<Seq<char>, Json>;

/// The values of a list of documents.
pub open spec fn spec_values(list: Seq<serde_json::Value>) -> Seq<Json> {
    list.map_values(|v: serde_json::Value| json_of(v))
}

/// The values of a list of borrowed documents.
pub open spec fn spec_values_of_refs(list: Seq<&serde_json::Value>) -> Seq<Json> {
    list.map_values(|v: &serde_json::Value| json_of(*v))
}

impl Json {
    /// The member `key` of an object; `None` for a missing key and for
    /// anything that is no object.
    pub open spec fn member(self, key: Seq<char>) -> Option<Json> {
        match self {
            Json::Object(members) => if members.contains_key(key) {
                Some(members[key])
            } else {
                None
            },
            _ => None,
        }
    }

    /// The number as an `i64`, where it is held as an integer and fits.
    pub open spec fn as_i64(self) -> Option<i64> {
        match self {
            Json::Number { integer: Some(n), .. } => if i64::MIN <= n <= i64::MAX {
                Some(n as i64)
            } else {
                None
            },
            _ => None,
        }
    }

    /// The number cut to an `i64`.
    pub open spec fn as_truncated(self) -> Option<i64> {
        match self {
            Json::Number { truncated, .. } => Some(truncated),
            _ => None,
        }
    }

    pub open spec fn as_bool(self) -> Option<bool> {
        match self {
            Json::Bool(b) => Some(b),
            _ => None,
        }
    }

    pub open spec fn as_text(self) -> Option<Seq<char>> {
        match self {
            Json::Text(text) => Some(text),
            _ => None,
        }
    }

    pub open spec fn as_array(self) -> Option<Seq<Json>> {
        match self {
            Json::Array(items) => Some(items),
            _ => None,
        }
    }
}

/// Whether `listing` holds the values of `members`, that of each member
/// once, in some order.
pub open spec fn spec_lists(members: Map<Seq<char>, Json>, listing: Seq<Json>) -> bool {
    exists|keys: Seq<Seq<char>>|
        {
            &&& keys.no_duplicates()
            &&& keys.to_set() == members.dom()
            &&& keys.len() == listing.len()
            &&& forall|i: int| 0 <= i < keys.len() ==> listing[i] == members[#[trigger] keys[i]]
        }
}

/// Calls `serde_json::Value::get` with a text key. It returns the member
/// of that name where the document is an object that has one, and `None`
/// otherwise.
#[verifier::external_body]
pub(crate) fn member<'a>(v: &'a serde_json::Value, key: &str) -> (r: Option<&'a serde_json::Value>)
    ensures
        match r {
            Some(found) => json_of(*v).member(key@) == Some(json_of(*found)),
            None => json_of(*v).member(key@) is None,
        },
{
    v.get(key)
}

/// Calls `serde_json::Value::as_i64`. It returns the number where the
/// document is a number held as an integer that fits an `i64`, and `None`
/// otherwise.
#[verifier::external_body]
pub(crate) fn as_i64(v: &serde_json::Value) -> (r: Option<i64>)
    ensures
        r == json_of(*v).as_i64(),
{
    v.as_i64()
}

/// Calls `serde_json::Value::as_f64` and cuts the float to an `i64`. The
/// call returns `None` where the document is no number; of the integer the
/// contract says only that it is the one the document's value names.
#[verifier::external_body]
pub(crate) fn as_truncated(v: &serde_json::Value) -> (r: Option<i64>)
    ensures
        r == json_of(*v).as_truncated(),
{
    v.as_f64().map(|number| number as i64)
}

/// Calls `serde_json::Value::as_bool`. It returns the truth value where the
/// document is one, and `None` otherwise.
#[verifier::external_body]
pub(crate) fn as_bool(v: &serde_json::Value) -> (r: Option<bool>)
    ensures
        r == json_of(*v).as_bool(),
{
    v.as_bool()
}

/// Calls `serde_json::Value::as_str`. It returns the text where the
/// document is a string, and `None` otherwise.
#[verifier::external_body]
pub(crate) fn as_str<'a>(v: &'a serde_json::Value) -> (r: Option<&'a str>)
    ensures
        match r {
            Some(text) => json_of(*v).as_text() == Some(text@),
            None => json_of(*v).as_text() is None,
        },
{
    v.as_str()
}

/// Calls `serde_json::Value::as_array`. It returns the items where the
/// document is an array, and `None` otherwise.
#[verifier::external_body]
pub(crate) fn as_array<'a>(v: &'a serde_json::Value) -> (r: Option<&'a Vec<serde_json::Value>>)
    ensures
        match r {
            Some(items) => json_of(*v).as_array() == Some(spec_values(items@)),
            None => json_of(*v).as_array() is None,
        },
{
    v.as_array()
}

/// Calls `serde_json::Value::as_object`. It returns the members where the
/// document is an object, and `None` otherwise.
#[verifier::external_body]
pub(crate) fn as_object<'a>(v: &'a serde_json::Value) -> (r: Option<
    &'a serde_json::Map<String, serde_json::Value>,
>)
    ensures
        match r {
            Some(members) => json_of(*v) == Json::Object(members_of(*members)),
            None => !(json_of(*v) is Object),
        },
{
    v.as_object()
}

/// Calls `serde_json::Map::values`. It walks the map and hands out the
/// value of each member once; the order is the map's own and is left open.
#[verifier::external_body]
pub(crate) fn values_of<'a>(members: &'a serde_json::Map<String, serde_json::Value>) -> (r: Vec<
    &'a serde_json::Value,
>)
    ensures
        spec_lists(members_of(*members), spec_values_of_refs(r@)),
{
    members.values().collect()
}

} // verus!
