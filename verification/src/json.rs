//! JSON values, as `serde_json` builds and writes them.

use vstd::prelude::*;

verus! {

/// A JSON number, as `serde_json` holds it.
#[verifier::external_type_specification]
#[verifier::external_body]
pub struct ExJsonNumber(serde_json::Number);

/// A JSON value, as `serde_json` holds it.
#[verifier::external_type_specification]
#[verifier::external_body]
pub struct ExJsonValue(serde_json::Value);

/// The members of a JSON object, as `serde_json` holds them.
#[verifier::external_type_specification]
#[verifier::external_body]
#[verifier::reject_recursive_types(K)]
#[verifier::reject_recursive_types(V)]
pub struct ExJsonMembers<K, V>(serde_json::Map<K, V>);

/// The error by which `serde_json` reports a failed serialization.
#[verifier::external_type_specification]
#[verifier::external_body]
pub struct ExJsonError(serde_json::Error);

/// What a JSON value holds. The members of an object are found by their keys
/// and have no order of their own.
pub enum JsonTree {
    Null,
    Bool(bool),
    Number(serde_json::Number),
    Text(Seq<char>),
    Array(Seq<JsonTree>),
    Object(Map<Seq<char>, JsonTree>),
}

/// What a `serde_json::Value` holds.
pub uninterp spec fn json_tree(value: serde_json::Value) -> JsonTree;

/// What a `serde_json::Map` holds.
pub uninterp spec fn json_members(
    members: serde_json::Map<String, serde_json::Value>,
) -> Map<Seq<char>, JsonTree>;

/// The compact JSON text of what a value holds.
pub uninterp spec fn tree_text(tree: JsonTree) -> Seq<char>;

/// What each of the values holds.
pub open spec fn json_trees(values: Seq<serde_json::Value>) -> Seq<JsonTree> {
    Seq::new(values.len(), |i: int| json_tree(values[i]))
}

/// `serde_json::Value::Null`: the value `null`.
#[verifier::external_body]
pub(crate) fn null_value() -> (value: serde_json::Value)
    ensures
        json_tree(value) == JsonTree::Null,
{
    serde_json::Value::Null
}

/// `serde_json::Value::Bool`: the value of a flag.
#[verifier::external_body]
pub(crate) fn bool_value(flag: bool) -> (value: serde_json::Value)
    ensures
        json_tree(value) == JsonTree::Bool(flag),
{
    serde_json::Value::Bool(flag)
}

/// `serde_json::Value::Number`: the value of a number.
#[verifier::external_body]
pub(crate) fn number_value(number: &serde_json::Number) -> (value: serde_json::Value)
    ensures
        json_tree(value) == JsonTree::Number(*number),
{
    serde_json::Value::Number(number.clone())
}

/// `serde_json::Value::String`: the value of a text.
#[verifier::external_body]
pub(crate) fn text_value(text: &str) -> (value: serde_json::Value)
    ensures
        json_tree(value) == JsonTree::Text(text@),
{
    serde_json::Value::String(text.to_owned())
}

/// `serde_json::Value::Array`: the value of a list of values, in their order.
#[verifier::external_body]
pub(crate) fn array_value(values: Vec<serde_json::Value>) -> (value: serde_json::Value)
    ensures
        json_tree(value) == JsonTree::Array(json_trees(values@)),
{
    serde_json::Value::Array(values)
}

/// `serde_json::Value::Object`: the value of the members of an object.
#[verifier::external_body]
pub(crate) fn object_value(members: serde_json::Map<String, serde_json::Value>) -> (value:
    serde_json::Value)
    ensures
        json_tree(value) == JsonTree::Object(json_members(members)),
{
    serde_json::Value::Object(members)
}

/// `serde_json::Map::new`: no members.
#[verifier::external_body]
pub(crate) fn no_members() -> (members: serde_json::Map<String, serde_json::Value>)
    ensures
        (json_members(members) == Map::<Seq<char>, JsonTree>::empty()),
{
    serde_json::Map::new()
}

/// `serde_json::Map::insert`: the member under the key becomes the value,
/// whether or not there was one, and the others stay.
#[verifier::external_body]
pub(crate) fn insert_member(
    members: &mut serde_json::Map<String, serde_json::Value>,
    key: &str,
    value: serde_json::Value,
)
    ensures
        json_members(*final(members)) == json_members(*old(members)).insert(
            key@,
            json_tree(value),
        ),
{
    members.insert(key.to_owned(), value);
}

/// `serde_json::to_string`: a JSON value is always written, the text depends
/// on what the value holds alone, and the empty object is `{}`.
#[verifier::external_body]
pub(crate) fn value_text(value: &serde_json::Value) -> (result: Result<String, serde_json::Error>)
    ensures
        result is Ok,
        result->Ok_0@ == tree_text(json_tree(*value)),
        json_tree(*value) == JsonTree::Object(Map::empty()) ==> result->Ok_0@ == "{}"@,
{
    serde_json::to_string(value)
}

/// The text of a `serde_json::Error`, of which nothing is claimed.
#[verifier::external_body]
pub(crate) fn json_error_text(error: &serde_json::Error) -> (text: String) {
    error.to_string()
}

} // verus!
