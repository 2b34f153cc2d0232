//! The machine's resolved public address, and the policy that merges the
//! two independent stack lookups into it. One stack failing is a
//! legitimate condition, not an error: only total failure is reported
//! upward, classified so the caller can tell whether a retry might help.

use vstd::prelude::*;

use super::error::Error;
use crate::rest_api::SendFailure;

verus! {

/// The resolved public address: one stack alone, or both. The absence of a
/// stack is a first-class unavailable condition that the reconciliation
/// engine reads, not an error.
pub enum IP {
    V4(String),
    V6(String),
    Both { v4: String, v6: String },
}

/// The mathematical shape of a resolved address.
pub enum SpecIp {
    V4(Seq<char>),
    V6(Seq<char>),
    Both { v4: Seq<char>, v6: Seq<char> },
}

impl View for IP {
    type V = SpecIp;

    open spec fn view(&self) -> SpecIp {
        match self {
            IP::V4(v4) => SpecIp::V4(v4@),
            IP::V6(v6) => SpecIp::V6(v6@),
            IP::Both { v4, v6 } => SpecIp::Both { v4: v4@, v6: v6@ },
        }
    }
}

impl SpecIp {
    /// The IPv4 address this resolution carries, if that stack answered.
    pub open spec fn v4_addr(self) -> Option<Seq<char>> {
        match self {
            SpecIp::V4(v4) => Some(v4),
            SpecIp::Both { v4, v6 } => Some(v4),
            SpecIp::V6(_) => None,
        }
    }

    /// The IPv6 address this resolution carries, if that stack answered.
    pub open spec fn v6_addr(self) -> Option<Seq<char>> {
        match self {
            SpecIp::V6(v6) => Some(v6),
            SpecIp::Both { v4, v6 } => Some(v6),
            SpecIp::V4(_) => None,
        }
    }
}

/// The classification of a total lookup failure: a network fault on either
/// stack outweighs everything, then a server fault on either, and only two
/// uncategorizable failures stay unknown.
pub open spec fn spec_merged_error(e4: Error, e6: Error) -> Error {
    if e4 is Network || e6 is Network {
        Error::Network
    } else if e4 is Server || e6 is Server {
        Error::Server
    } else {
        Error::Unknown
    }
}

impl IP {
    /// The IPv4 address, if the IPv4 stack answered.
    pub fn v4(&self) -> (r: Option<String>)
        ensures
            match r {
                Some(a) => self@.v4_addr() == Some(a@),
                None => self@.v4_addr() is None,
            },
    {
        match self {
            IP::V4(v4) => Some(v4.clone()),
            IP::Both { v4, v6 } => Some(v4.clone()),
            IP::V6(_) => None,
        }
    }

    /// The IPv6 address, if the IPv6 stack answered.
    pub fn v6(&self) -> (r: Option<String>)
        ensures
            match r {
                Some(a) => self@.v6_addr() == Some(a@),
                None => self@.v6_addr() is None,
            },
    {
        match self {
            IP::V6(v6) => Some(v6.clone()),
            IP::Both { v4, v6 } => Some(v6.clone()),
            IP::V4(_) => None,
        }
    }

    /// Merge the two stack lookups: any answered stack is kept, a single
    /// failed stack is tolerated silently, and only two failures are
    /// reported, with network faults taking precedence over server faults
    /// and server faults over unknown ones.
    pub fn merge(v4: Result<String, Error>, v6: Result<String, Error>) -> (r: Result<IP, Error>)
        ensures
            match (v4, v6) {
                (Ok(a4), Ok(a6)) => r matches Ok(ip) && ip == (IP::Both { v4: a4, v6: a6 }),
                (Ok(a4), Err(_)) => r matches Ok(ip) && ip == IP::V4(a4),
                (Err(_), Ok(a6)) => r matches Ok(ip) && ip == IP::V6(a6),
                (Err(e4), Err(e6)) => r == Result::<IP, Error>::Err(spec_merged_error(e4, e6)),
            },
    {
        match (v4, v6) {
            (Ok(a4), Ok(a6)) => Ok(IP::Both { v4: a4, v6: a6 }),
            (Ok(a4), Err(_)) => Ok(IP::V4(a4)),
            (Err(_), Ok(a6)) => Ok(IP::V6(a6)),
            (Err(e4), Err(e6)) => {
                if matches!(e4, Error::Network) || matches!(e6, Error::Network) {
                    Err(Error::Network)
                } else if matches!(e4, Error::Server) || matches!(e6, Error::Server) {
                    Err(Error::Server)
                } else {
                    Err(Error::Unknown)
                }
            },
        }
    }
}

/// How a failed address-lookup send classifies: HTTP 400 is the endpoint
/// refusing the request, a transport-level flag is a network fault, and
/// anything left is unknown.
pub open spec fn spec_classify_lookup_send_failure(f: SendFailure) -> Error {
    if f.status == Some(400u16) {
        Error::Server
    } else if f.is_connect || f.is_request || f.is_timeout {
        Error::Network
    } else {
        Error::Unknown
    }
}

/// Classify a failed send on an address lookup.
pub fn classify_lookup_send_failure(f: &SendFailure) -> (e: Error)
    ensures
        e == spec_classify_lookup_send_failure(*f),
{
    match f.status {
        Some(400u16) => Error::Server,
        _ => {
            if f.is_connect || f.is_request || f.is_timeout {
                Error::Network
            } else {
                Error::Unknown
            }
        },
    }
}

/// Classify an address-lookup body that would not read as the expected
/// `{ip}` shape: a decode fault is a decode error, anything else counts
/// against the network.
pub fn classify_lookup_decode_failure(is_decode: bool) -> (e: Error)
    ensures
        e == if is_decode {
            Error::DecodeResponse
        } else {
            Error::Network
        },
{
    if is_decode {
        Error::DecodeResponse
    } else {
        Error::Network
    }
}

} // verus!
