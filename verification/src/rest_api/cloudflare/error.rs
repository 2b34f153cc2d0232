use vstd::prelude::*;

verus! {

/// The error taxonomy shared by every provider call.
///
/// `Internal` is a malformed or missing request (HTTP 400), `Unauthorized`
/// is HTTP 401, `InvalidZone` is HTTP 403, `InvalidRecord` is HTTP 404 on a
/// record-specific call. `Network` covers transport, connect and timeout
/// failures; `Server` a reachable endpoint that answered without success;
/// `DecodeResponse` a body that did not parse as the expected shape; and
/// `Unknown` anything uncategorized.
#[derive(Clone, Copy, Debug, PartialEq, Eq, Structural)]
pub enum Error {
    Internal,
    Network,
    Unauthorized,
    InvalidZone,
    InvalidRecord,
    Server,
    DecodeResponse,
    Unknown,
}

} // verus!
