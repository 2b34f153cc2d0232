use vstd::prelude::*;

verus! {

/// The reduced taxonomy for address-lookup calls: the endpoint was
/// unreachable (`Network`), reachable but answering with an error
/// (`Server`), answering with a body that did not parse
/// (`DecodeResponse`), or failing in some uncategorized way (`Unknown`).
#[derive(Clone, Copy, Debug, PartialEq, Eq, Structural)]
pub enum Error {
    Network,
    Server,
    DecodeResponse,
    Unknown,
}

} // verus!
