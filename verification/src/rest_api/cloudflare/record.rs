use vstd::prelude::*;

mod record_type;

pub mod classify;
pub mod create;
pub mod delete;
pub mod list;
pub mod update;

pub use record_type::spec_record_type_str;
pub use record_type::RecordType;

verus! {

/// A DNS record as the provider currently stores it. `id` is the opaque
/// provider-assigned identity used to address mutate and delete calls;
/// matching against desired entries goes by `(domain_name, record_type)`
/// alone and never by `id`.
pub struct Record {
    pub id: String,
    pub domain_name: String,
    pub value: String,
    pub record_type: RecordType,
    pub proxied: bool,
}

/// The mathematical shape of a live record: its strings as sequences of
/// characters.
pub struct SpecRecord {
    pub id: Seq<char>,
    pub domain_name: Seq<char>,
    pub value: Seq<char>,
    pub record_type: RecordType,
    pub proxied: bool,
}

impl View for Record {
    type V = SpecRecord;

    open spec fn view(&self) -> SpecRecord {
        SpecRecord {
            id: self.id@,
            domain_name: self.domain_name@,
            value: self.value@,
            record_type: self.record_type,
            proxied: self.proxied,
        }
    }
}

/// The views of a sequence of live records.
pub open spec fn spec_records(records: Seq<Record>) -> Seq<SpecRecord> {
    records.map_values(|r: Record| r@)
}

} // verus!
