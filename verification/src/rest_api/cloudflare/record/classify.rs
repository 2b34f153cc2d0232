//! The shared classification of failed record calls, applied uniformly to
//! list, create, update and delete so that every operation maps statuses
//! to the taxonomy the same way.

use vstd::prelude::*;

use crate::rest_api::cloudflare::error::Error;
use crate::rest_api::DecodeFailure;
use crate::rest_api::SendFailure;

verus! {

/// How a failed send classifies: a recognized status code decides first
/// (400 a malformed request, 401 bad credentials, 403 a zone the token
/// cannot touch, 404 a record that does not exist); otherwise any
/// transport-level flag means the network failed, and anything left is
/// unknown.
pub open spec fn spec_classify_send_failure(f: SendFailure) -> Error {
    if f.status == Some(400u16) {
        Error::Internal
    } else if f.status == Some(401u16) {
        Error::Unauthorized
    } else if f.status == Some(403u16) {
        Error::InvalidZone
    } else if f.status == Some(404u16) {
        Error::InvalidRecord
    } else if f.is_request || f.is_connect || f.is_timeout || f.is_status {
        Error::Network
    } else {
        Error::Unknown
    }
}

/// Classify a failed send on a record call.
pub fn classify_send_failure(f: &SendFailure) -> (e: Error)
    ensures
        e == spec_classify_send_failure(*f),
{
    match f.status {
        Some(400u16) => Error::Internal,
        Some(401u16) => Error::Unauthorized,
        Some(403u16) => Error::InvalidZone,
        Some(404u16) => Error::InvalidRecord,
        _ => {
            if f.is_request || f.is_connect || f.is_timeout || f.is_status {
                Error::Network
            } else {
                Error::Unknown
            }
        },
    }
}

/// How a response body that would not read as the expected shape
/// classifies: a body or decode fault is a decode error, anything else is
/// unknown.
pub open spec fn spec_classify_decode_failure(f: DecodeFailure) -> Error {
    if f.is_body || f.is_decode {
        Error::DecodeResponse
    } else {
        Error::Unknown
    }
}

/// Classify a failure to read a record call's response body.
pub fn classify_decode_failure(f: &DecodeFailure) -> (e: Error)
    ensures
        e == spec_classify_decode_failure(*f),
{
    if f.is_body || f.is_decode {
        Error::DecodeResponse
    } else {
        Error::Unknown
    }
}

} // verus!
