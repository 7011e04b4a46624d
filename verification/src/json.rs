//! Structured payloads and their encoding as JSON text.
//!
//! A structured payload (an input, rendered messages, a tool configuration,
//! an output schema) is a `serde_json::Value` that the library carries
//! without looking inside. Encoding is done by `serde_json`; what it gives
//! for a payload has a name here, so that contracts can say which text
//! belongs to which payload.

use vstd::prelude::*;

verus! {

/// Makes `serde_json::Value` known to the verifier, as a type whose values
/// it cannot look into.
#[verifier::external_type_specification]
#[verifier::external_body]
pub struct ExValue(serde_json::Value);

/// Makes `serde_json::Error` known to the verifier, as a type whose values
/// it cannot look into.
#[verifier::external_type_specification]
#[verifier::external_body]
pub struct ExJsonError(serde_json::Error);

/// What `serde_json::to_string` gives for a JSON value: the JSON text that
/// it writes, or the text of the error that it reports.
pub uninterp spec fn json_value_text(value: serde_json::Value) -> Result<Seq<char>, Seq<char>>;

/// What `serde_json::to_string` gives for a string: the JSON text that it
/// writes, which is the string between double quotes with the characters
/// that JSON reserves escaped, or the text of the error that it reports.
pub uninterp spec fn json_string_text(s: Seq<char>) -> Result<Seq<char>, Seq<char>>;

/// The text that a `serde_json::Error` writes through its `Display`.
pub uninterp spec fn json_error_text(error: serde_json::Error) -> Seq<char>;

/// Calls `serde_json::to_string` on a JSON value. Whether it succeeds, the
/// text that it then returns and the error that it else reports are a
/// function of the value alone, named [`json_value_text`].
#[verifier::external_body]
pub(crate) fn encode_value(value: &serde_json::Value) -> (r: Result<String, serde_json::Error>)
    ensures
        r matches Ok(text) ==> (json_value_text(*value) matches Ok(named) && named == text@),
        r matches Err(error) ==> (json_value_text(*value) matches Err(named) && named
            == json_error_text(error)),
{
    serde_json::to_string(value)
}

/// Calls `serde_json::to_string` on a string. Whether it succeeds, the text
/// that it then returns and the error that it else reports are a function
/// of the string alone, named [`json_string_text`].
#[verifier::external_body]
pub(crate) fn encode_text(text: &str) -> (r: Result<String, serde_json::Error>)
    ensures
        r matches Ok(encoded) ==> (json_string_text(text@) matches Ok(named) && named == encoded@),
        r matches Err(error) ==> (json_string_text(text@) matches Err(named) && named
            == json_error_text(error)),
{
    serde_json::to_string(text)
}

/// Calls `to_string` on a `serde_json::Error`, which writes the error
/// through its `Display`: the text named [`json_error_text`].
#[verifier::external_body]
pub(crate) fn error_text(error: &serde_json::Error) -> (message: String)
    ensures
        message@ == json_error_text(*error),
{
    error.to_string()
}

} // verus!
