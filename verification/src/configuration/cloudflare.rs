use vstd::prelude::*;

pub mod domain_name;

use domain_name::DomainName;

verus! {

/// The provider account a run works against: the bearer token, the zone
/// the records live in, and the declarative list of desired entries.
pub struct Cloudflare {
    pub token: String,
    pub zone: String,
    pub domain_names: Vec<DomainName>,
}

} // verus!
