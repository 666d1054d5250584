//! The calls into serde_json and std that the library relies on, each with
//! the contract it is trusted to meet.
use vstd::prelude::*;

verus! {

#[verifier::external_type_specification]
#[verifier::external_body]
pub struct ExJsonValue(serde_json::Value);

#[verifier::external_type_specification]
#[verifier::external_body]
pub struct ExJsonError(serde_json::Error);

/// The bytes hold exactly one JSON value (with surrounding whitespace).
pub uninterp spec fn is_json(b: Seq<u8>) -> bool;

/// The text that lossy UTF-8 decoding gives for the bytes.
pub uninterp spec fn utf8_lossy(b: Seq<u8>) -> Seq<char>;

/// Relies on `serde_json::from_slice` into a `serde_json::Value`: it
/// succeeds or fails by the bytes alone.
#[verifier::external_body]
pub(crate) fn parse_json(b: &Vec<u8>) -> (r: Result<serde_json::Value, serde_json::Error>)
    ensures
        r is Ok <==> is_json(b@),
{
    serde_json::from_slice(b.as_slice())
}

/// Relies on the `Display` of `serde_json::Error` for a readable message.
#[verifier::external_body]
pub(crate) fn json_error_message(e: &serde_json::Error) -> String {
    e.to_string()
}

/// Relies on `String::from_utf8_lossy`: the text depends on the bytes alone,
/// and no bytes give no text.
#[verifier::external_body]
pub(crate) fn lossy_text(b: &Vec<u8>) -> (r: String)
    ensures
        r@ == utf8_lossy(b@),
        b@.len() == 0 ==> r@.len() == 0,
{
    String::from_utf8_lossy(b.as_slice()).into_owned()
}

} // verus!
