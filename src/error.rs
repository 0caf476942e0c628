use vstd::prelude::*;

verus! {

/// Why an operation on the resource failed.
#[derive(Debug, PartialEq, Eq)]
pub enum ApiError {
    /// The request could not be carried out: DNS, connection, or transfer
    /// failure. Holds the transport's own description.
    Transport(String),
    /// The response body is not a JSON object.
    Decode,
    /// The server answered a removal with a status outside `200..300`.
    RequestFailed(u16),
}

} // verus!
