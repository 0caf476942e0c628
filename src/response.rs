use vstd::prelude::*;

use crate::error::ApiError;
use crate::payload::{decode_payload, object_keys_of, payload_keys, ResourcePayload};

verus! {

/// A status in the `2xx` class.
pub open spec fn is_success_code(status: u16) -> bool {
    200 <= status && status < 300
}

/// What read, create and replace return, given what the transport delivered:
/// the body of the response, or the transport's description of its failure.
pub open spec fn payload_result_ok(response: Result<Vec<u8>, String>, r: Result<ResourcePayload, ApiError>) -> bool {
    match response {
        Err(m) => r == Err::<ResourcePayload, ApiError>(ApiError::Transport(m)),
        Ok(body) => {
            &&& (r is Ok <==> object_keys_of(body@) is Some)
            &&& (r is Ok ==> payload_keys(r->Ok_0) == object_keys_of(body@)->Some_0)
            &&& (r is Err ==> r == Err::<ResourcePayload, ApiError>(ApiError::Decode))
            &&& (body@.len() == 0 ==> r == Err::<ResourcePayload, ApiError>(ApiError::Decode))
        },
    }
}

/// The same check as `http::StatusCode::is_success`: the status is in `200..300`.
pub fn is_success_status(status: u16) -> (r: bool)
    ensures
        r == is_success_code(status),
{
    200 <= status && status < 300
}

/// How a removal ended, given the status the server answered with: success
/// for a `2xx` status, otherwise `RequestFailed` with that very status. No
/// body is read.
pub fn removal_outcome(status: u16) -> (r: Result<(), ApiError>)
    ensures
        r is Ok <==> is_success_code(status),
        !is_success_code(status) ==> r == Err::<(), ApiError>(ApiError::RequestFailed(status)),
        r == removal_outcome_spec(status),
{
    if is_success_status(status) {
        Ok(())
    } else {
        Err(ApiError::RequestFailed(status))
    }
}

/// How a removal ended, given what the transport delivered: the response
/// status, or the transport's description of its failure.
pub fn finish_remove(response: Result<u16, String>) -> (r: Result<(), ApiError>)
    ensures
        response is Err ==> r == Err::<(), ApiError>(ApiError::Transport(response->Err_0)),
        response is Ok ==> r == removal_outcome_spec(response->Ok_0),
{
    match response {
        Err(m) => Err(ApiError::Transport(m)),
        Ok(status) => removal_outcome(status),
    }
}

/// The result of `removal_outcome`.
pub open spec fn removal_outcome_spec(status: u16) -> Result<(), ApiError> {
    if is_success_code(status) {
        Ok(())
    } else {
        Err(ApiError::RequestFailed(status))
    }
}

/// How read, create or replace ended, given what the transport delivered:
/// a transport failure is passed on as it is, and a body is decoded as a JSON
/// object.
pub fn finish_payload(response: Result<Vec<u8>, String>) -> (r: Result<ResourcePayload, ApiError>)
    ensures
        payload_result_ok(response, r),
{
    match response {
        Err(m) => Err(ApiError::Transport(m)),
        Ok(body) => decode_payload(body.as_slice()),
    }
}

} // verus!
