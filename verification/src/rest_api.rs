//! Typed views of what the HTTP layer reports: the modules below classify
//! send failures, decode failures and response bodies into the error
//! taxonomy, and build the request URLs and bodies, all on plain values.

use vstd::prelude::*;

pub mod cloudflare;
pub mod ip_sb;

verus! {

/// The observable shape of a failed HTTP send: the response status code,
/// if one was received, and the transport flags the HTTP client reports.
/// The process that performs the send fills this in; classification over
/// it is verified.
pub struct SendFailure {
    pub status: Option<u16>,
    pub is_request: bool,
    pub is_connect: bool,
    pub is_timeout: bool,
    pub is_status: bool,
}

/// The observable shape of a failed attempt to read a response body as
/// JSON: whether the failure was in obtaining the body and whether it was
/// in decoding it.
pub struct DecodeFailure {
    pub is_body: bool,
    pub is_decode: bool,
}

} // verus!
