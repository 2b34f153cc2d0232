use vstd::prelude::*;

verus! {

/// One desired entry from the user's declarative configuration. `comment`
/// is carried for the user's sake and never read by reconciliation.
pub struct DomainName {
    pub name: String,
    pub record_type: RecordType,
    pub proxied: bool,
    pub time_to_live: u16,
    pub comment: Option<String>,
}

/// Which stack a desired entry asks for: an `A` record wants the machine's
/// IPv4 address, an `AAAA` record its IPv6 address.
#[derive(Clone, Copy, Debug, PartialEq, Eq, Structural)]
pub enum RecordType {
    A,
    AAAA,
}

impl Default for RecordType {
    /// An entry that names no record type asks for an `A` record.
    fn default() -> (r: Self)
        ensures
            r == RecordType::A,
    {
        RecordType::A
    }
}

/// The mathematical shape of a desired entry.
pub struct SpecDomainName {
    pub name: Seq<char>,
    pub record_type: RecordType,
    pub proxied: bool,
    pub time_to_live: u16,
    pub comment: Option<Seq<char>>,
}

impl View for DomainName {
    type V = SpecDomainName;

    open spec fn view(&self) -> SpecDomainName {
        SpecDomainName {
            name: self.name@,
            record_type: self.record_type,
            proxied: self.proxied,
            time_to_live: self.time_to_live,
            comment: match self.comment {
                Some(c) => Some(c@),
                None => None,
            },
        }
    }
}

/// The views of a sequence of desired entries.
pub open spec fn spec_domain_names(domains: Seq<DomainName>) -> Seq<SpecDomainName> {
    domains.map_values(|d: DomainName| d@)
}

/// The time to live an entry gets when it names none: the provider's
/// sentinel `1`, meaning automatic.
pub fn time_to_live() -> (r: u16)
    ensures
        r == 1u16,
{
    1
}

/// The proxied flag an entry gets when it names none: routed through the
/// proxy layer.
pub fn proxied() -> (r: bool)
    ensures
        r == true,
{
    true
}

} // verus!
