//! Untyped JSON: turning the bytes of a body into a `serde_json` value.

use crate::error::KubeError;
use crate::error::KubeErrorView;
use serde_json::Error;
use serde_json::Value;
use vstd::prelude::*;

verus! {

/// `serde_json::Value`: any JSON value.
#[verifier::external_type_specification]
#[verifier::external_body]
pub struct ExValue(Value);

/// `serde_json::Error`: why a text is not the JSON that was asked for.
#[verifier::external_type_specification]
#[verifier::external_body]
pub struct ExError(Error);

/// What `serde_json::from_slice` makes of bytes when asked for a `Value`.
pub uninterp spec fn json_parse(bytes: Seq<u8>) -> Result<Value, Error>;

/// What a `serde_json::Error` says when displayed.
pub uninterp spec fn json_error_text(error: Error) -> Seq<char>;

/// Calls `serde_json::from_slice` for a `Value`. The contract claims only that
/// the outcome is the one named [`json_parse`]: it depends on the bytes alone.
#[verifier::external_body]
pub(crate) fn from_slice(bytes: &[u8]) -> (r: Result<Value, Error>)
    ensures
        r == json_parse(bytes@),
{
    serde_json::from_slice::<Value>(bytes)
}

/// Formats a `serde_json::Error` with its `Display` impl.
#[verifier::external_body]
pub(crate) fn error_text(error: &Error) -> (r: String)
    ensures
        r@ == json_error_text(*error),
{
    format!("{}", error)
}

/// What decoding a body as untyped JSON gives: the value, or a
/// deserialization error that carries the parser's complaint.
pub open spec fn decoded_value(body: Seq<u8>) -> Result<Value, KubeErrorView> {
    match json_parse(body) {
        Ok(value) => Ok(value),
        Err(error) => Err(KubeErrorView::DeserializeError(json_error_text(error))),
    }
}

/// Decodes a body as untyped JSON.
pub fn decode_value(body: &[u8]) -> (result: Result<Value, KubeError>)
    ensures
        crate::wire::seen(result) == decoded_value(body@),
{
    match from_slice(body) {
        Ok(value) => Ok(value),
        Err(error) => Err(KubeError::DeserializeError(error_text(&error))),
    }
}

} // verus!
