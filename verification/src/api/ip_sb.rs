//! The compact form of the dual-stack lookup: a tri-state address value
//! with the same merge policy as [`crate::rest_api::ip_sb::ip`], for
//! callers that drive the two lookups over a plain shared HTTP client.

use vstd::prelude::*;

use crate::rest_api::SendFailure;

verus! {

/// What a single address lookup fails with here: the endpoint unreachable,
/// the endpoint answering with an error or an unreadable body, or an
/// uncategorized fault.
#[derive(Clone, Copy, Debug, PartialEq, Eq, Structural)]
pub enum Error {
    Network,
    Server,
    Unknown,
}

/// The resolved public address: one stack alone, or both.
pub enum IpSB {
    V4(String),
    V6(String),
    Both { v4: String, v6: String },
}

/// The classification of a total lookup failure: network faults outweigh
/// server faults, and server faults outweigh unknown ones.
pub open spec fn spec_merged_error(e4: Error, e6: Error) -> Error {
    if e4 is Network || e6 is Network {
        Error::Network
    } else if e4 is Server || e6 is Server {
        Error::Server
    } else {
        Error::Unknown
    }
}

impl IpSB {
    /// Merge the two stack lookups: any answered stack is kept, a single
    /// failed stack is tolerated silently, and only total failure is
    /// reported, classified by [`spec_merged_error`].
    pub fn merge(v4: Result<String, Error>, v6: Result<String, Error>) -> (r: Result<
        IpSB,
        Error,
    >)
        ensures
            match (v4, v6) {
                (Ok(a4), Ok(a6)) => r matches Ok(ip) && ip == (IpSB::Both { v4: a4, v6: a6 }),
                (Ok(a4), Err(_)) => r matches Ok(ip) && ip == IpSB::V4(a4),
                (Err(_), Ok(a6)) => r matches Ok(ip) && ip == IpSB::V6(a6),
                (Err(e4), Err(e6)) => r == Result::<IpSB, Error>::Err(spec_merged_error(e4, e6)),
            },
    {
        match (v4, v6) {
            (Ok(a4), Ok(a6)) => Ok(IpSB::Both { v4: a4, v6: a6 }),
            (Ok(a4), Err(_)) => Ok(IpSB::V4(a4)),
            (Err(_), Ok(a6)) => Ok(IpSB::V6(a6)),
            (Err(e4), Err(e6)) => {
                if matches!(e4, Error::Network) || matches!(e6, Error::Network) {
                    Err(Error::Network)
                } else if matches!(e4, Error::Server) || matches!(e6, Error::Server) {
                    Err(Error::Server)
                } else {
                    Err(Error::Unknown)
                }
            },
        }
    }
}

/// How a failed send on either echo endpoint classifies: HTTP 400 is the
/// endpoint refusing the request, a transport-level flag is a network
/// fault, and anything left is unknown. A body that does not read as the
/// expected shape counts as a server fault.
pub open spec fn spec_classify_send_failure(f: SendFailure) -> Error {
    if f.status == Some(400u16) {
        Error::Server
    } else if f.is_connect || f.is_request || f.is_timeout {
        Error::Network
    } else {
        Error::Unknown
    }
}

/// Classify a failed send on an echo endpoint.
pub fn classify_send_failure(f: &SendFailure) -> (e: Error)
    ensures
        e == spec_classify_send_failure(*f),
{
    match f.status {
        Some(400u16) => Error::Server,
        _ => {
            if f.is_connect || f.is_request || f.is_timeout {
                Error::Network
            } else {
                Error::Unknown
            }
        },
    }
}

} // verus!
