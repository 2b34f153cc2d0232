//! How the two record-type vocabularies meet: the desired entries name
//! only the kinds reconciliation writes (`A`, `AAAA`), while the provider
//! also stores kinds it never writes. Matching a desired entry against a
//! live record compares kinds through these functions, independent of any
//! other tag.

use vstd::prelude::*;

use crate::configuration::cloudflare::domain_name::RecordType as DesiredKind;
use crate::rest_api::cloudflare::record::RecordType as LiveKind;

verus! {

/// The provider record type a desired entry's kind creates.
pub open spec fn spec_record_type_of(d: DesiredKind) -> LiveKind {
    match d {
        DesiredKind::A => LiveKind::A,
        DesiredKind::AAAA => LiveKind::AAAA,
    }
}

/// Convert a desired entry's kind into the provider record type it
/// creates.
pub fn record_type_of(d: &DesiredKind) -> (r: LiveKind)
    ensures
        r == spec_record_type_of(*d),
{
    match d {
        DesiredKind::A => LiveKind::A,
        DesiredKind::AAAA => LiveKind::AAAA,
    }
}

/// Whether a live record's kind is the one a desired entry asks for: `A`
/// answers only `A`, `AAAA` only `AAAA`, and the kinds reconciliation
/// never writes answer nothing.
pub open spec fn spec_kind_matches(live: LiveKind, desired: DesiredKind) -> bool {
    (live is A && desired is A) || (live is AAAA && desired is AAAA)
}

/// Whether a live record's kind is the one a desired entry asks for.
pub fn kind_matches(live: &LiveKind, desired: &DesiredKind) -> (r: bool)
    ensures
        r == spec_kind_matches(*live, *desired),
{
    matches!(
        (live, desired),
        (LiveKind::A, DesiredKind::A) | (LiveKind::AAAA, DesiredKind::AAAA)
    )
}

} // verus!
