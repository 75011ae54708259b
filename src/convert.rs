use vstd::prelude::*;

use crate::error::Error;

verus! {

#[verifier::external_type_specification]
#[verifier::external_body]
pub struct ExJsonValue(serde_json::Value);

#[verifier::external_type_specification]
#[verifier::external_body]
#[verifier::reject_recursive_types(K)]
#[verifier::reject_recursive_types(V)]
pub struct ExJsonMap<K, V>(serde_json::Map<K, V>);

/// Short name for serde json's basic map type.
pub type JsonMap = serde_json::Map<String, serde_json::Value>;

/// Key of the envelope field that carries the payload.
pub const API_RESPONSE_KEY: &'static str = "api_response";

/// One field of a JSON object, by the shape of its value.
pub enum JsonField {
    /// The object has no such key.
    Missing,
    /// A JSON string.
    Text(String),
    /// A JSON object.
    Object(JsonMap),
    /// A JSON array.
    List(Vec<serde_json::Value>),
    /// Any other JSON value (null, a boolean, a number).
    Other(serde_json::Value),
}

/// The value that the object `obj` holds under `key`, by its shape.
pub uninterp spec fn json_field(obj: serde_json::Map<String, serde_json::Value>, key: Seq<char>) -> JsonField;

/// Relies on serde_json::Map::remove: the value stored under `key`, if any,
/// told apart by its variant.
#[verifier::external_body]
fn take_field(obj: JsonMap, key: &str) -> (r: JsonField)
    ensures
        r == json_field(obj, key@),
{
    let mut obj = obj;
    match obj.remove(key) {
        None => JsonField::Missing,
        Some(serde_json::Value::String(s)) => JsonField::Text(s),
        Some(serde_json::Value::Object(m)) => JsonField::Object(m),
        Some(serde_json::Value::Array(a)) => JsonField::List(a),
        Some(v) => JsonField::Other(v),
    }
}

pub open spec fn string_result(f: JsonField) -> Result<String, Error> {
    match f {
        JsonField::Text(s) => Ok(s),
        _ => Err(Error::MalformedResponse),
    }
}

pub open spec fn map_result(f: JsonField) -> Result<JsonMap, Error> {
    match f {
        JsonField::Object(m) => Ok(m),
        _ => Err(Error::MalformedResponse),
    }
}

pub open spec fn list_result(f: JsonField) -> Result<Vec<serde_json::Value>, Error> {
    match f {
        JsonField::List(a) => Ok(a),
        _ => Err(Error::MalformedResponse),
    }
}

/// The string held by a field; `MalformedResponse` for any other shape.
pub fn expect_string(f: JsonField) -> (r: Result<String, Error>)
    ensures
        r == string_result(f),
{
    match f {
        JsonField::Text(s) => Ok(s),
        _ => Err(Error::MalformedResponse),
    }
}

/// The object held by a field; `MalformedResponse` for any other shape.
pub fn expect_map(f: JsonField) -> (r: Result<JsonMap, Error>)
    ensures
        r == map_result(f),
{
    match f {
        JsonField::Object(m) => Ok(m),
        _ => Err(Error::MalformedResponse),
    }
}

/// The array held by a field; `MalformedResponse` for any other shape.
pub fn expect_list(f: JsonField) -> (r: Result<Vec<serde_json::Value>, Error>)
    ensures
        r == list_result(f),
{
    match f {
        JsonField::List(a) => Ok(a),
        _ => Err(Error::MalformedResponse),
    }
}

/// The envelope's payload as a string.
pub fn convert_api_output_string(obj: JsonMap) -> (r: Result<String, Error>)
    ensures
        r == string_result(json_field(obj, API_RESPONSE_KEY@)),
{
    expect_string(take_field(obj, API_RESPONSE_KEY))
}

/// The envelope's payload as an object.
pub fn convert_api_output_map(obj: JsonMap) -> (r: Result<JsonMap, Error>)
    ensures
        r == map_result(json_field(obj, API_RESPONSE_KEY@)),
{
    expect_map(take_field(obj, API_RESPONSE_KEY))
}

/// The envelope's payload as an array.
pub fn convert_api_output_list(obj: JsonMap) -> (r: Result<Vec<serde_json::Value>, Error>)
    ensures
        r == list_result(json_field(obj, API_RESPONSE_KEY@)),
{
    expect_list(take_field(obj, API_RESPONSE_KEY))
}

} // verus!
