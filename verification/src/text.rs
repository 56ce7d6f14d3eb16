//! JSON text: the documents that the cache holds are read from and written
//! to their text by serde_json.
use vstd::prelude::*;
use crate::json::{Json, JsonValue};

verus! {

/// serde_json's value type, carried through the conversions below.
#[verifier::external_type_specification]
#[verifier::external_body]
pub struct ExValue(serde_json::Value);

/// serde_json's error type, carried from a number's text to its message.
#[verifier::external_type_specification]
#[verifier::external_body]
pub struct ExError(serde_json::Error);

/// What serde_json reads from a JSON text, as a document: the document, or
/// the message of the error that the text gives.
pub uninterp spec fn json_text_value(text: Seq<char>) -> Result<JsonValue, Seq<char>>;

/// What serde_json writes for a document: its compact text, or the message of
/// the error that writing it gives.
pub uninterp spec fn json_text_of(doc: JsonValue) -> Result<Seq<char>, Seq<char>>;

/// The document that a serde_json value holds, variant by variant; a number
/// becomes its decimal text. Nothing is stated of it: the parse below states
/// its result together with the parse.
#[verifier::external_body]
fn document_of_value(value: serde_json::Value) -> Json {
    match value {
        serde_json::Value::Null => Json::Null,
        serde_json::Value::Bool(b) => Json::Bool(b),
        serde_json::Value::Number(n) => Json::Number(n.to_string()),
        serde_json::Value::String(s) => Json::Str(s),
        serde_json::Value::Array(items) => Json::Array(
            items.into_iter().map(document_of_value).collect(),
        ),
        serde_json::Value::Object(members) => Json::Object(
            members.into_iter().map(|(k, v)| (k, document_of_value(v))).collect(),
        ),
    }
}

/// The serde_json value of a document, variant by variant; a number's text is
/// read by serde_json's `Number::from_str`, whose error is passed on. Nothing
/// is stated of it: the rendering below states its result together with the
/// rendering.
#[verifier::external_body]
fn value_of_document(doc: &Json) -> Result<serde_json::Value, serde_json::Error> {
    Ok(match doc {
        Json::Null => serde_json::Value::Null,
        Json::Bool(b) => serde_json::Value::Bool(*b),
        Json::Number(t) => serde_json::Value::Number(t.parse::<serde_json::Number>()?),
        Json::Str(s) => serde_json::Value::String(s.clone()),
        Json::Array(items) => serde_json::Value::Array(
            items.iter().map(value_of_document).collect::<Result<Vec<_>, _>>()?,
        ),
        Json::Object(members) => serde_json::Value::Object(
            members.iter().map(|(k, v)| Ok((k.clone(), value_of_document(v)?))).collect::<
                Result<serde_json::Map<String, serde_json::Value>, serde_json::Error>,
            >()?,
        ),
    })
}

/// Reads a JSON text with `serde_json::from_str` into a `serde_json::Value`,
/// and gives it as a document. Claimed: the outcome is the one that
/// [`json_text_value`] names for the text, the document or the error's
/// message (its `Display`).
#[verifier::external_body]
pub(crate) fn parse_json_text(text: &str) -> (r: Result<Json, String>)
    ensures
        match r {
            Ok(j) => json_text_value(text@) == Ok::<JsonValue, Seq<char>>(j@),
            Err(m) => json_text_value(text@) == Err::<JsonValue, Seq<char>>(m@),
        },
{
    match serde_json::from_str::<serde_json::Value>(text) {
        Ok(v) => Ok(document_of_value(v)),
        Err(e) => Err(e.to_string()),
    }
}

/// Writes a document as compact JSON text with `serde_json::to_string` on its
/// `serde_json::Value`. Claimed: the outcome is the one that [`json_text_of`]
/// names for the document, the text or the error's message (its `Display`).
#[verifier::external_body]
pub(crate) fn render_json_text(doc: &Json) -> (r: Result<String, String>)
    ensures
        match r {
            Ok(t) => json_text_of(doc@) == Ok::<Seq<char>, Seq<char>>(t@),
            Err(m) => json_text_of(doc@) == Err::<Seq<char>, Seq<char>>(m@),
        },
{
    let value = match value_of_document(doc) {
        Ok(v) => v,
        Err(e) => return Err(e.to_string()),
    };
    match serde_json::to_string(&value) {
        Ok(t) => Ok(t),
        Err(e) => Err(e.to_string()),
    }
}

} // verus!
