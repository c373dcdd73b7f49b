//! Reading of loosely structured JSON payloads held as `serde_json::Value`.
//!
//! A payload is opaque to the proofs. What it holds is named by the three
//! functions without a body below, one for each accessor of `serde_json` that
//! is called here, and nothing is claimed of a payload beyond what those
//! accessors return.

use vstd::prelude::*;

verus! {

/// `serde_json::Value`, a JSON value of any form. Nothing of what it holds is
/// visible but through the functions below.
#[verifier::external_type_specification]
#[verifier::external_body]
pub struct ExJsonValue(serde_json::Value);

/// `serde_json::Map`, the member table of a JSON object.
#[verifier::external_type_specification]
#[verifier::external_body]
#[verifier::reject_recursive_types(K)]
#[verifier::reject_recursive_types(V)]
pub struct ExJsonMap<K, V>(serde_json::Map<K, V>);

/// The member table of a JSON value that is an object, and none for any
/// other value.
pub uninterp spec fn json_object(
    value: serde_json::Value,
) -> Option<serde_json::Map<String, serde_json::Value>>;

/// The members of a JSON object, keyed by member name.
pub uninterp spec fn json_members(
    object: serde_json::Map<String, serde_json::Value>,
) -> Map<Seq<char>, serde_json::Value>;

/// The number held by a JSON value that is an integer within the range of
/// `i64`, and none for any other value.
pub uninterp spec fn json_i64(value: serde_json::Value) -> Option<i64>;

/// `serde_json::Value::as_object`: hands out the member table of an object and
/// nothing for any other value.
#[verifier::external_body]
fn value_as_object(
    value: &serde_json::Value,
) -> (object: Option<&serde_json::Map<String, serde_json::Value>>)
    ensures
        match object {
            Some(members) => json_object(*value) == Some(*members),
            None => json_object(*value) is None,
        },
{
    value.as_object()
}

/// `serde_json::Map::get`: looks a member up by its name, and hands out the
/// member where the object has one of that name.
#[verifier::external_body]
fn object_get<'a>(
    object: &'a serde_json::Map<String, serde_json::Value>,
    key: &str,
) -> (member: Option<&'a serde_json::Value>)
    ensures
        match member {
            Some(found) => {
                &&& json_members(*object).contains_key(key@)
                &&& json_members(*object)[key@] == *found
            },
            None => !json_members(*object).contains_key(key@),
        },
{
    object.get(key)
}

/// `serde_json::Value::as_i64`: the value as an `i64` where it is an integer
/// that fits, and nothing otherwise.
#[verifier::external_body]
fn value_as_i64(value: &serde_json::Value) -> (number: Option<i64>)
    ensures
        number == json_i64(*value),
{
    value.as_i64()
}

/// The integer stored under `key` in `value`: present exactly when `value` is
/// an object, has a member of that name, and the member is an integer within
/// the range of `i64`.
pub open spec fn integer_member(value: serde_json::Value, key: Seq<char>) -> Option<i64> {
    match json_object(value) {
        Some(object) => if json_members(object).contains_key(key) {
            json_i64(json_members(object)[key])
        } else {
            None
        },
        None => None,
    }
}

/// Reads the integer member `key` of `value`.
pub fn read_integer_member(value: &serde_json::Value, key: &str) -> (number: Option<i64>)
    ensures
        number == integer_member(*value, key@),
{
    match value_as_object(value) {
        Some(object) => match object_get(object, key) {
            Some(member) => value_as_i64(member),
            None => None,
        },
        None => None,
    }
}

} // verus!
