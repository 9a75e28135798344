//! The bridge that carries configuration values across the boundary: a
//! structured value goes in, its JSON text comes out, and a value that
//! cannot be written as JSON counts as no configuration at all.

use vstd::prelude::*;

verus! {

/// `serde_json::Value`, a structured configuration value. The library only
/// carries it from the extension to the serializer and never looks inside.
#[verifier::external_type_specification]
#[verifier::external_body]
pub struct ExValue(serde_json::Value);

/// `serde_json::Error`, the reason a serialization failed. The library
/// drops it unread.
#[verifier::external_type_specification]
#[verifier::external_body]
pub struct ExError(serde_json::Error);

/// The JSON text that `serde_json::to_string` writes for `value`, or `None`
/// where it reports an error.
pub uninterp spec fn json_text(value: serde_json::Value) -> Option<Seq<char>>;

/// Calls `serde_json::to_string` on `value`. Nothing is proved of that
/// function; the contract only gives its outcome a name: the text of an `Ok`
/// is `json_text(value)`, and an `Err` comes exactly where `json_text(value)`
/// is `None`.
#[verifier::external_body]
fn to_json_string(value: &serde_json::Value) -> (outcome: Result<String, serde_json::Error>)
    ensures
        match outcome {
            Ok(text) => json_text(*value) == Some(text@),
            Err(_) => json_text(*value) is None,
        },
{
    serde_json::to_string(value)
}

/// The characters of an optional string.
pub open spec fn text_of(text: Option<String>) -> Option<Seq<char>> {
    match text {
        Some(t) => Some(t@),
        None => None,
    }
}

/// The transport form of an optional configuration value: absent for an
/// absent value, else the value's JSON text, which is absent too where the
/// value cannot be written.
pub open spec fn transport_form(value: Option<serde_json::Value>) -> Option<Seq<char>> {
    match value {
        Some(v) => json_text(v),
        None => None,
    }
}

/// Turns the outcome of a serialization into the transport form: the text
/// of a success, and nothing for a failure. The error is dropped, never
/// handed on.
pub fn serialized_or_absent(outcome: Result<String, serde_json::Error>) -> (text: Option<String>)
    ensures
        text == match outcome {
            Ok(t) => Some(t),
            Err(_) => None::<String>,
        },
{
    match outcome {
        Ok(t) => Some(t),
        Err(_) => None,
    }
}

/// Serializes an optional configuration value for transport. An absent
/// value gives an absent result without any attempt to serialize; a value
/// whose serialization fails gives an absent result as well.
pub fn serialize_config(value: Option<serde_json::Value>) -> (text: Option<String>)
    ensures
        text_of(text) == transport_form(value),
        value is None ==> text is None,
{
    match value {
        Some(v) => serialized_or_absent(to_json_string(&v)),
        None => None,
    }
}

/// What the host is told for the outcome of a configuration capability: a
/// failure is handed on with its message untouched, and a success carries
/// the transport form of the value.
pub open spec fn is_config_reply(
    outcome: Result<Option<serde_json::Value>, String>,
    reply: Result<Option<String>, String>,
) -> bool {
    match outcome {
        Ok(value) => reply matches Ok(text) && text_of(text) == transport_form(value),
        Err(message) => reply == Err::<Option<String>, String>(message),
    }
}

/// Translates the outcome of a configuration capability into the reply for
/// the host.
pub fn config_reply(outcome: Result<Option<serde_json::Value>, String>) -> (reply: Result<
    Option<String>,
    String,
>)
    ensures
        is_config_reply(outcome, reply),
{
    match outcome {
        Ok(value) => Ok(serialize_config(value)),
        Err(message) => Err(message),
    }
}

} // verus!
