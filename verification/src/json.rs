//! JSON values as the relay sees them: a mathematical model of a value, and
//! the calls into `serde_json` that read, build and write one.

use vstd::prelude::*;

verus! {

/// What a JSON value holds. A number is an integer where `serde_json` keeps it
/// as one (the range of `i64` and `u64`), and otherwise the text that stands
/// for its floating-point reading. An object maps each key to its value; the
/// order of its keys is not part of it.
pub enum JsonModel {
    Null,
    Bool(bool),
    Integer(int),
    Real(Seq<char>),
    Text(Seq<char>),
    Array(Seq<JsonModel>),
    Object(Map<Seq<char>, JsonModel>),
}

/// `serde_json::Value`, carried through as it is: what it holds is known
/// through `json_view` alone.
#[verifier::external_type_specification]
#[verifier::external_body]
pub struct ExValue(serde_json::Value);

/// `serde_json::Error`, of which nothing is read.
#[verifier::external_type_specification]
#[verifier::external_body]
pub struct ExError(serde_json::Error);

/// The model of a `serde_json::Value`.
pub uninterp spec fn json_view(value: serde_json::Value) -> JsonModel;

/// What `serde_json::from_str` reads from a text, or `None` where it rejects
/// the text.
pub uninterp spec fn json_parse(text: Seq<char>) -> Option<JsonModel>;

/// What `serde_json::to_string` writes for a value, or `None` where it fails.
/// The fields of an object are written in the order of their keys, so that
/// the text depends on what the value holds alone.
pub uninterp spec fn json_text(value: JsonModel) -> Option<Seq<char>>;

/// `serde_json::from_str` at `serde_json::Value`. The outcome depends on the
/// text alone: the same text always reads as the same value, or always fails.
#[verifier::external_body]
pub(crate) fn parse_value(text: &str) -> (res: Result<serde_json::Value, serde_json::Error>)
    ensures
        match res {
            Ok(value) => json_parse(text@) == Some(json_view(value)),
            Err(_) => json_parse(text@) is None,
        },
{
    serde_json::from_str::<serde_json::Value>(text)
}

/// `serde_json::to_string` on a `serde_json::Value`. The text written depends
/// on what the value holds alone.
#[verifier::external_body]
pub(crate) fn write_value(value: &serde_json::Value) -> (res: Result<String, serde_json::Error>)
    ensures
        match res {
            Ok(text) => json_text(json_view(*value)) == Some(text@),
            Err(_) => json_text(json_view(*value)) is None,
        },
{
    serde_json::to_string(value)
}

/// `serde_json::Value::is_object`: whether the value is a JSON object.
#[verifier::external_body]
pub(crate) fn value_is_object(value: &serde_json::Value) -> (res: bool)
    ensures
        res == (json_view(*value) is Object),
{
    value.is_object()
}

/// `serde_json::Value::Object` around `serde_json::Map::new`: an object
/// without fields.
#[verifier::external_body]
pub(crate) fn empty_object() -> (res: serde_json::Value)
    ensures
        json_view(res) == JsonModel::Object(Map::empty()),
{
    serde_json::Value::Object(serde_json::Map::new())
}

/// `serde_json::Value::String`: the JSON string that holds a text.
#[verifier::external_body]
pub(crate) fn text_value(text: &str) -> (res: serde_json::Value)
    ensures
        json_view(res) == JsonModel::Text(text@),
{
    serde_json::Value::String(text.to_owned())
}

/// `From<u64>` of `serde_json::Value`: the JSON number that holds an unsigned
/// integer.
#[verifier::external_body]
pub(crate) fn integer_value(number: u64) -> (res: serde_json::Value)
    ensures
        json_view(res) == JsonModel::Integer(number as int),
{
    serde_json::Value::from(number)
}

/// `serde_json::Map::insert` on the fields of an object, reached through
/// `serde_json::Value::as_object_mut`: the key maps to the new value, whether
/// or not it was there before, and every other field stays as it was.
#[verifier::external_body]
pub(crate) fn object_insert(object: &mut serde_json::Value, key: &str, item: serde_json::Value)
    requires
        json_view(*old(object)) is Object,
    ensures
        json_view(*final(object)) == JsonModel::Object(
            json_view(*old(object))->Object_0.insert(key@, json_view(item)),
        ),
{
    if let Some(fields) = object.as_object_mut() {
        fields.insert(key.to_owned(), item);
    }
}

/// `serde_json::Value::get` with a string index: the field of that name where
/// the value is an object that has one, and nothing otherwise.
#[verifier::external_body]
pub(crate) fn value_get<'a>(value: &'a serde_json::Value, key: &str) -> (res: Option<
    &'a serde_json::Value,
>)
    ensures
        match res {
            Some(field) => has_field(json_view(*value), key@) && json_view(*field) == json_view(
                *value,
            )->Object_0[key@],
            None => !has_field(json_view(*value), key@),
        },
{
    value.get(key)
}

/// `serde_json::Value::as_str`: the text of a JSON string, and nothing for any
/// other value.
#[verifier::external_body]
pub(crate) fn value_as_str<'a>(value: &'a serde_json::Value) -> (res: Option<&'a str>)
    ensures
        match res {
            Some(text) => json_view(*value) == JsonModel::Text(text@),
            None => !(json_view(*value) is Text),
        },
{
    value.as_str()
}

/// Whether a value is an object with a field of the given name.
pub open spec fn has_field(value: JsonModel, key: Seq<char>) -> bool {
    value is Object && value->Object_0.contains_key(key)
}

} // verus!
