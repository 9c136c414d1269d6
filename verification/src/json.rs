//! JSON values: the library carries `serde_json::Value`s through unchanged and
//! reaches serde_json only to decode text, to build the authorize-URL object and
//! to render values.
use vstd::prelude::*;

verus! {

/// A JSON value of serde_json, carried opaquely.
#[verifier::external_type_specification]
#[verifier::external_body]
pub struct ExJsonValue(serde_json::Value);

/// The error serde_json reports for text that is not JSON.
#[verifier::external_type_specification]
#[verifier::external_body]
pub struct ExJsonError(serde_json::Error);

/// What `serde_json::from_str::<Value>` makes of `text`: the decoded value, or the
/// error it reports.
pub uninterp spec fn json_decoded(text: Seq<char>) -> Result<serde_json::Value, serde_json::Error>;

/// The object `{ key: value }` with one member whose value is the JSON string `value`.
pub uninterp spec fn json_string_member(key: Seq<char>, value: Seq<char>) -> serde_json::Value;

/// The text that `serde_json::to_string_pretty` renders for `value`.
pub uninterp spec fn json_pretty(value: serde_json::Value) -> Seq<char>;

/// Decodes JSON text with `serde_json::from_str::<Value>`.
/// Claimed: the outcome is `json_decoded(text)`, a function of the text alone.
#[verifier::external_body]
pub(crate) fn decode_json(text: &str) -> (r: Result<serde_json::Value, serde_json::Error>)
    ensures
        r == json_decoded(text@),
{
    serde_json::from_str(text)
}

/// Builds `Value::Object` holding the one member `key: Value::String(value)`,
/// with `serde_json::Map::new` and `Map::insert`.
/// Claimed: the result is `json_string_member(key, value)`.
#[verifier::external_body]
pub(crate) fn string_member_object(key: &str, value: &str) -> (r: serde_json::Value)
    ensures
        r == json_string_member(key@, value@),
{
    let mut map = serde_json::Map::new();
    map.insert(key.to_string(), serde_json::Value::String(value.to_string()));
    serde_json::Value::Object(map)
}

/// Renders a value with `serde_json::to_string_pretty`.
/// Claimed: the call never fails on a `Value` (its `Serialize` impl reports no
/// error of its own and the output buffer is a `Vec<u8>`), and yields `json_pretty(value)`.
#[verifier::external_body]
pub(crate) fn pretty_json(value: &serde_json::Value) -> (r: Result<String, serde_json::Error>)
    ensures
        r is Ok,
        r matches Ok(s) ==> s@ == json_pretty(*value),
{
    serde_json::to_string_pretty(value)
}

} // verus!
