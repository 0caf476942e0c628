use vstd::prelude::*;

use crate::error::ApiError;

verus! {

#[verifier::external_type_specification]
#[verifier::external_body]
pub struct ExJsonValue(serde_json::Value);

#[verifier::external_type_specification]
#[verifier::external_body]
#[verifier::reject_recursive_types(K)]
#[verifier::reject_recursive_types(V)]
pub struct ExJsonMap<K, V>(serde_json::Map<K, V>);

#[verifier::external_type_specification]
#[verifier::external_body]
pub struct ExJsonError(serde_json::Error);

/// A JSON object: string keys, each with an arbitrary JSON value.
pub type ResourcePayload = serde_json::Map<String, serde_json::Value>;

/// The keys that a payload holds.
pub uninterp spec fn payload_keys(p: ResourcePayload) -> Set<Seq<char>>;

/// The top-level keys of `body` where `body` is the text of a JSON object,
/// and `None` where it is not.
pub uninterp spec fn object_keys_of(body: Seq<u8>) -> Option<Set<Seq<char>>>;

/// Relies on `serde_json::from_slice` into a `serde_json::Map`: it succeeds
/// exactly on the text of a JSON object, and the map it builds holds one
/// entry for each top-level key of that object. Empty input is no object.
#[verifier::external_body]
fn parse_object(body: &[u8]) -> (r: Result<ResourcePayload, serde_json::Error>)
    ensures
        r is Ok <==> object_keys_of(body@) is Some,
        r is Ok ==> payload_keys(r->Ok_0) == object_keys_of(body@)->Some_0,
        body@.len() == 0 ==> r is Err,
{
    serde_json::from_slice(body)
}

/// Decodes a response body as a JSON object. Succeeds exactly when the body
/// is the text of a JSON object; the payload then holds the object's
/// top-level keys, no more and no fewer. Any other body is a `Decode` error.
pub fn decode_payload(body: &[u8]) -> (r: Result<ResourcePayload, ApiError>)
    ensures
        r is Ok <==> object_keys_of(body@) is Some,
        r is Ok ==> payload_keys(r->Ok_0) == object_keys_of(body@)->Some_0,
        r is Err ==> r == Err::<ResourcePayload, ApiError>(ApiError::Decode),
        body@.len() == 0 ==> r == Err::<ResourcePayload, ApiError>(ApiError::Decode),
{
    match parse_object(body) {
        Ok(p) => Ok(p),
        Err(_) => Err(ApiError::Decode),
    }
}

} // verus!
