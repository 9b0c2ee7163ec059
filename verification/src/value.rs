//! JSON documents as values of this library, and the calls into `serde_json`
//! that read and print them.

use vstd::prelude::*;

verus! {

/// The mathematical content of a JSON document.
pub enum JsonModel {
    Null,
    Bool(bool),
    /// An integer between 0 and `u64::MAX`.
    Number(u64),
    /// Any other number: negative, fractional or too large.
    OtherNumber,
    Text(Seq<char>),
    Array(Seq<JsonModel>),
    /// The members of an object, in the order of the document.
    Object(Seq<(Seq<char>, JsonModel)>),
}

/// A JSON document in memory.
#[derive(Debug, PartialEq, Eq)]
pub enum JsonValue {
    Null,
    Bool(bool),
    /// An integer between 0 and `u64::MAX`.
    Number(u64),
    /// Any other number: negative, fractional or too large.
    OtherNumber,
    Text(String),
    Array(Vec<JsonValue>),
    /// The members of an object, in the order of the document.
    Object(Vec<(String, JsonValue)>),
}

impl JsonValue {
    /// What this document holds.
    pub open spec fn model(self) -> JsonModel
        decreases self,
    {
        match self {
            JsonValue::Null => JsonModel::Null,
            JsonValue::Bool(b) => JsonModel::Bool(b),
            JsonValue::Number(n) => JsonModel::Number(n),
            JsonValue::OtherNumber => JsonModel::OtherNumber,
            JsonValue::Text(s) => JsonModel::Text(s@),
            JsonValue::Array(items) => JsonModel::Array(
                Seq::new(
                    items@.len(),
                    |i: int|
                        if 0 <= i < items@.len() {
                            items@[i].model()
                        } else {
                            JsonModel::Null
                        },
                ),
            ),
            JsonValue::Object(members) => JsonModel::Object(
                Seq::new(
                    members@.len(),
                    |i: int|
                        if 0 <= i < members@.len() {
                            (members@[i].0@, members@[i].1.model())
                        } else {
                            (Seq::empty(), JsonModel::Null)
                        },
                ),
            ),
        }
    }
}

/// What `serde_json::from_str` makes of a text when asked for a
/// `serde_json::Value`: the document, or the parser's message.
pub uninterp spec fn json_parse(text: Seq<char>) -> Result<JsonModel, Seq<char>>;

/// What `serde_json::to_string_pretty` prints for a document.
pub uninterp spec fn json_text(value: JsonModel) -> Result<Seq<char>, Seq<char>>;

/// The outcome of parsing, with the document and the message as mathematics.
pub open spec fn parsed_model(r: Result<JsonValue, String>) -> Result<JsonModel, Seq<char>> {
    match r {
        Ok(v) => Ok(v.model()),
        Err(e) => Err(e@),
    }
}

/// The outcome of printing, with the text and the message as mathematics.
pub open spec fn printed_model(r: Result<String, String>) -> Result<Seq<char>, Seq<char>> {
    match r {
        Ok(s) => Ok(s@),
        Err(e) => Err(e@),
    }
}

/// `serde_json::Value`, the parser's own tree. Nothing is known of what is
/// inside one: it is moved into a [`JsonValue`] before the library reads it.
#[verifier::external_type_specification]
#[verifier::external_body]
pub struct ExJsonTree(serde_json::Value);

/// Moves a `serde_json::Value` into a [`JsonValue`], variant by variant and
/// member by member, in the tree's order. A number becomes `Number` where
/// `serde_json::Number::as_u64` gives one, and `OtherNumber` where it gives
/// none. Nothing is claimed of the result: it is one step of [`parse_json`].
#[verifier::external_body]
fn from_tree(tree: serde_json::Value) -> JsonValue {
    match tree {
        serde_json::Value::Null => JsonValue::Null,
        serde_json::Value::Bool(b) => JsonValue::Bool(b),
        serde_json::Value::Number(n) => n.as_u64().map_or(JsonValue::OtherNumber, JsonValue::Number),
        serde_json::Value::String(s) => JsonValue::Text(s),
        serde_json::Value::Array(items) => JsonValue::Array(items.into_iter().map(from_tree).collect()),
        serde_json::Value::Object(members) => JsonValue::Object(
            members.into_iter().map(|(k, v)| (k, from_tree(v))).collect(),
        ),
    }
}

/// Builds the `serde_json::Value` for a [`JsonValue`], variant by variant and
/// member by member, in the value's order. `OtherNumber` holds no digits and
/// is built as `null`; of two members with one key the tree keeps one.
/// Nothing is claimed of the result: it is one step of [`print_json`].
#[verifier::external_body]
fn to_tree(value: &JsonValue) -> serde_json::Value {
    match value {
        JsonValue::Null | JsonValue::OtherNumber => serde_json::Value::Null,
        JsonValue::Bool(b) => serde_json::Value::Bool(*b),
        JsonValue::Number(n) => serde_json::Value::from(*n),
        JsonValue::Text(s) => serde_json::Value::String(s.clone()),
        JsonValue::Array(items) => serde_json::Value::Array(items.iter().map(to_tree).collect()),
        JsonValue::Object(members) => serde_json::Value::Object(
            members.iter().map(|(k, v)| (k.clone(), to_tree(v))).collect(),
        ),
    }
}

/// Calls `serde_json::from_str` for a `serde_json::Value` and hands the tree
/// over as a [`JsonValue`], or the error as its message. The contract only
/// names the outcome: the same text always parses to the same document or
/// fails with the same message. It says nothing of which texts parse.
#[verifier::external_body]
pub(crate) fn parse_json(text: &str) -> (r: Result<JsonValue, String>)
    ensures
        parsed_model(r) == json_parse(text@),
{
    match serde_json::from_str::<serde_json::Value>(text) {
        Ok(tree) => Ok(from_tree(tree)),
        Err(e) => Err(e.to_string()),
    }
}

/// Calls `serde_json::to_string_pretty` on the tree built for the document.
/// The contract only names the outcome: the same document always prints as
/// the same text. It says nothing of what the text looks like.
#[verifier::external_body]
pub(crate) fn print_json(value: &JsonValue) -> (r: Result<String, String>)
    ensures
        printed_model(r) == json_text(value.model()),
{
    match serde_json::to_string_pretty(&to_tree(value)) {
        Ok(s) => Ok(s),
        Err(e) => Err(e.to_string()),
    }
}

} // verus!
