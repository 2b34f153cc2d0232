//! Classification for the one call made before any reconciliation: asking
//! the provider whether the credentials are usable, to fail fast on a bad
//! token. Its mapping is narrower than the record calls': a refused
//! request means the token itself is bad.

use vstd::prelude::*;

use super::error::Error;
use crate::rest_api::SendFailure;

verus! {

/// How a failed token-verification send classifies: a refused request
/// (HTTP 400) means the credentials are unusable, any transport-level flag
/// means the network failed, and anything left is unknown.
pub open spec fn spec_classify_token_send_failure(f: SendFailure) -> Error {
    if f.status == Some(400u16) {
        Error::Unauthorized
    } else if f.is_request || f.is_connect || f.is_timeout || f.is_status {
        Error::Network
    } else {
        Error::Unknown
    }
}

/// Classify a failed send on the token-verification call.
pub fn classify_token_send_failure(f: &SendFailure) -> (e: Error)
    ensures
        e == spec_classify_token_send_failure(*f),
{
    if f.status.is_some() && *f.status.as_ref().unwrap() == 400u16 {
        Error::Unauthorized
    } else if f.is_request || f.is_connect || f.is_timeout || f.is_status {
        Error::Network
    } else {
        Error::Unknown
    }
}

/// Classify a token-verification body that would not read as the expected
/// shape: a decode fault is a decode error, anything else counts against
/// the network.
pub fn classify_token_decode_failure(is_decode: bool) -> (e: Error)
    ensures
        e == if is_decode {
            Error::DecodeResponse
        } else {
            Error::Network
        },
{
    if is_decode {
        Error::DecodeResponse
    } else {
        Error::Network
    }
}

/// Accept or refuse a token-verification body: the provider's `success`
/// flag decides, and a token the provider does not accept is reported as
/// unauthorized.
pub fn accept_token_body(success: bool) -> (r: Result<(), Error>)
    ensures
        r == if success {
            Result::<(), Error>::Ok(())
        } else {
            Result::<(), Error>::Err(Error::Unauthorized)
        },
{
    if success {
        Ok(())
    } else {
        Err(Error::Unauthorized)
    }
}

} // verus!
