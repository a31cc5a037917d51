//! JSON values as `serde_json` holds them.

use vstd::prelude::*;

verus! {

/// A JSON value of `serde_json`.
#[verifier::external_type_specification]
#[verifier::external_body]
pub struct ExJsonValue(serde_json::Value);

/// A JSON object of `serde_json`: fields by name.
#[verifier::external_type_specification]
#[verifier::external_body]
#[verifier::reject_recursive_types(K)]
#[verifier::reject_recursive_types(V)]
pub struct ExJsonMap<K, V>(serde_json::Map<K, V>);

/// The error of `serde_json`.
#[verifier::external_type_specification]
#[verifier::external_body]
pub struct ExJsonError(serde_json::Error);

/// The fields of a JSON object, by name.
pub uninterp spec fn object_fields(
    object: serde_json::Map<String, serde_json::Value>,
) -> Map<Seq<char>, serde_json::Value>;

/// The items of a JSON array, or `None` for a value that is no array.
pub uninterp spec fn array_items(value: serde_json::Value) -> Option<Seq<serde_json::Value>>;

/// The text of a JSON string, or `None` for a value that is no string.
pub uninterp spec fn string_text(value: serde_json::Value) -> Option<Seq<char>>;

/// What reading a JSON text gives: the value that it denotes, or the error for a text that is not
/// JSON.
pub uninterp spec fn json_reading(text: Seq<char>) -> Result<serde_json::Value, serde_json::Error>;

/// The value that a JSON text denotes, or `None` for a text that is not JSON.
pub open spec fn parsed_json(text: Seq<char>) -> Option<serde_json::Value> {
    match json_reading(text) {
        Ok(value) => Some(value),
        Err(_) => None,
    }
}

/// Calls `serde_json::Map::get`, which looks a field of an object up by its name.
///
/// Claimed: it finds the field of that name, and finds none exactly if the object has none.
#[verifier::external_body]
pub(crate) fn object_get<'a>(
    object: &'a serde_json::Map<String, serde_json::Value>,
    name: &str,
) -> (value: Option<&'a serde_json::Value>)
    ensures
        value matches Some(v) ==> object_fields(*object).contains_pair(name@, *v),
        value is None ==> !object_fields(*object).contains_key(name@),
{
    object.get(name)
}

/// Calls `serde_json::Map::clone`, which copies an object.
///
/// Claimed: the copy has the same fields.
#[verifier::external_body]
pub(crate) fn object_clone(object: &serde_json::Map<String, serde_json::Value>) -> (copy:
    serde_json::Map<String, serde_json::Value>)
    ensures
        object_fields(copy) == object_fields(*object),
{
    object.clone()
}

/// Calls `serde_json::Value::as_array`, which gives the items of an array.
///
/// Claimed: the items depend on the value alone.
#[verifier::external_body]
pub(crate) fn value_as_array(value: &serde_json::Value) -> (items: Option<&Vec<serde_json::Value>>)
    ensures
        items matches Some(v) ==> array_items(*value) == Some(v@),
        items is None ==> array_items(*value) is None,
{
    value.as_array()
}

/// Calls `serde_json::Value::as_str`, which gives the text of a string.
///
/// Claimed: the text depends on the value alone.
#[verifier::external_body]
pub(crate) fn value_as_str(value: &serde_json::Value) -> (text: Option<&str>)
    ensures
        text matches Some(t) ==> string_text(*value) == Some(t@),
        text is None ==> string_text(*value) is None,
{
    value.as_str()
}

/// Calls `serde_json::from_str` for a `serde_json::Value`, which reads a JSON text.
///
/// Claimed: the value, or the error in its place, depends on the text alone.
#[verifier::external_body]
pub(crate) fn parse_value(text: &str) -> (value: Result<serde_json::Value, serde_json::Error>)
    ensures
        value == json_reading(text@),
{
    serde_json::from_str::<serde_json::Value>(text)
}

/// Calls `==` on two values of `serde_json::Value`.
///
/// Claimed: it decides whether the values are equal. JSON numbers are always finite, so this is an
/// equivalence, and equal values have equal items and equal text. Values that it does not tell
/// apart, such as the numbers `0.0` and `-0.0`, are one value here.
#[verifier::external_body]
pub(crate) fn same_value(left: &serde_json::Value, right: &serde_json::Value) -> (same: bool)
    ensures
        same == (*left == *right),
{
    left == right
}

} // verus!
