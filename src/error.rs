use vstd::prelude::*;

verus! {

/// Every way in which one call to the remote job API can fail.
#[derive(Debug, PartialEq, Eq)]
pub enum ApiError {
    /// The credential cannot be carried in a request header.
    InvalidCredential(String),
    /// No response was received: connection, name lookup, TLS or timeout failure.
    Transport(String),
    /// The service answered with a status outside 200..=299; the body is kept verbatim.
    Remote { status_code: u16, body: String },
    /// The service answered with success but the body is not a job record.
    MalformedResponse(String),
}

} // verus!
