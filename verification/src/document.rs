//! Documents crossing the native boundary.
//!
//! A document travels as serialized JSON text and is parsed into a
//! structured value only immediately before it is returned to the
//! caller. The structured value and its (de)serialization come from
//! serde_json; the functions here wrap those calls and translate their
//! failures into the crate's error taxonomy.

use vstd::prelude::*;

use crate::error::ChronDBError;

verus! {

#[verifier::external_type_specification]
#[verifier::external_body]
pub struct ExJsonValue(serde_json::Value);

#[verifier::external_type_specification]
#[verifier::external_body]
pub struct ExJsonError(serde_json::Error);

/// Whether a text is well-formed JSON, i.e. whether parsing it into a
/// structured value succeeds. Parsing is a function of the text alone.
pub uninterp spec fn json_wf(s: Seq<char>) -> bool;

/// Relies on serde_json::from_str: parses a text into a JSON value;
/// success or failure depends on the text alone.
#[verifier::external_body]
fn json_from_str(s: &str) -> (r: Result<serde_json::Value, serde_json::Error>)
    ensures
        r is Ok <==> json_wf(s@),
{
    serde_json::from_str(s)
}

/// Relies on serde_json::to_string: serializes a JSON value as text.
/// For `Value` the call cannot fail: serialization errs only when a
/// `Serialize` impl reports an error or a map has non-string keys, and
/// `Value`'s maps are string-keyed and its impl reports none.
#[verifier::external_body]
fn json_to_string(v: &serde_json::Value) -> (r: Result<String, serde_json::Error>)
    ensures
        r is Ok,
{
    serde_json::to_string(v)
}

/// Relies on serde_json::Error's Display impl: the diagnostic text of a
/// parse or serialization failure.
#[verifier::external_body]
fn json_error_text(e: &serde_json::Error) -> (r: String) {
    e.to_string()
}

/// Relies on serde_json::Value::Array: the JSON array value with no
/// elements.
#[verifier::external_body]
pub(crate) fn json_empty_array() -> (r: serde_json::Value) {
    serde_json::Value::Array(Vec::new())
}

/// Parses a document text into a structured value; a malformed text is
/// reported as `JsonError` carrying the parser's diagnostic.
pub fn parse_document(text: &str) -> (r: Result<serde_json::Value, ChronDBError>)
    ensures
        r is Ok <==> json_wf(text@),
        r matches Err(e) ==> e matches ChronDBError::JsonError(_),
{
    match json_from_str(text) {
        Ok(v) => Ok(v),
        Err(e) => Err(ChronDBError::JsonError(json_error_text(&e))),
    }
}

/// Serializes a document value as text. A structured value always
/// serializes, so the call succeeds; the error arm only translates a
/// serializer failure, were one ever reported, into `JsonError`.
pub fn serialize_document(doc: &serde_json::Value) -> (r: Result<String, ChronDBError>)
    ensures
        r is Ok,
{
    match json_to_string(doc) {
        Ok(s) => Ok(s),
        Err(e) => Err(ChronDBError::JsonError(json_error_text(&e))),
    }
}

} // verus!
