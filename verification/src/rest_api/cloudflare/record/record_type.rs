use vstd::prelude::*;

verus! {

/// The DNS record types the provider stores for a zone that this crate
/// cares about: `A` (an IPv4 address), `AAAA` (an IPv6 address), and `NS`,
/// which a listing may contain but which reconciliation never writes.
#[derive(Clone, Copy, Debug, PartialEq, Eq, Structural)]
pub enum RecordType {
    A,
    AAAA,
    NS,
}

/// The text form of each record type, as the provider's API names them.
pub open spec fn spec_record_type_str(t: RecordType) -> Seq<char> {
    match t {
        RecordType::A => "A"@,
        RecordType::AAAA => "AAAA"@,
        RecordType::NS => "NS"@,
    }
}

impl RecordType {
    /// The record type's name, for request bodies and reports.
    pub fn display_str(&self) -> (r: &'static str)
        ensures
            r@ == spec_record_type_str(*self),
    {
        match self {
            RecordType::A => "A",
            RecordType::AAAA => "AAAA",
            RecordType::NS => "NS",
        }
    }
}

} // verus!
