//! The boundary to `serde_json`: the stored value type and the line parser.

use serde_json::Value;
use vstd::prelude::*;

verus! {

/// A parsed JSON document. Its inside is never inspected by this crate: values
/// are produced by the parser, stored, copied and handed out.
#[verifier::external_type_specification]
#[verifier::external_body]
pub struct ExValue(serde_json::Value);

/// The error `serde_json` reports for a text that is not one JSON document.
#[verifier::external_type_specification]
#[verifier::external_body]
pub struct ExJsonError(serde_json::Error);

/// What `serde_json::from_str::<Value>` makes of a text: the document it
/// denotes, or `None` when the text is not exactly one JSON document.
pub uninterp spec fn json_document(text: Seq<char>) -> Option<Value>;

/// `<serde_json::Value as Clone>::clone` yields a value equal to the one it
/// was given.
pub assume_specification[ <serde_json::Value as Clone>::clone ](value: &Value) -> (copy: Value)
    ensures
        copy == *value,
;

/// Calls `serde_json::from_str::<Value>`. The outcome depends on the text
/// alone: it is `Ok` with the document named by [`json_document`] exactly when
/// that is `Some`.
#[verifier::external_body]
pub(crate) fn parse_document(text: &str) -> (parsed: Result<Value, serde_json::Error>)
    ensures
        parsed is Ok <==> json_document(text@) is Some,
        parsed matches Ok(value) ==> json_document(text@) == Some(value),
{
    serde_json::from_str(text)
}

/// Parses one line as a JSON document.
pub fn parse_line(line: &String) -> (parsed: Option<Value>)
    ensures
        parsed == json_document(line@),
{
    match parse_document(line.as_str()) {
        Ok(value) => Some(value),
        Err(_) => None,
    }
}

} // verus!
