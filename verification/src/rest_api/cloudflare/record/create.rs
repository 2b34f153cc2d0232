use vstd::prelude::*;
use vstd::string::StringExecFns;

use super::Record;
use super::RecordType;
use crate::rest_api::cloudflare::error::Error;

verus! {

/// What a creation call sends: the new record's name, address value,
/// record type, time to live and proxied flag. The surrounding process
/// encodes it as the provider's JSON body.
pub struct RequestBody {
    pub domain_name: String,
    pub value: String,
    pub record_type: RecordType,
    pub time_to_live: u16,
    pub is_proxied: bool,
}

impl RequestBody {
    /// Assemble a creation request from the intended record's parts.
    pub fn new(
        domain_name: &String,
        value: &String,
        record_type: &RecordType,
        time_to_live: u16,
        is_proxied: bool,
    ) -> (r: Self)
        ensures
            r.domain_name@ == domain_name@,
            r.value@ == value@,
            r.record_type == *record_type,
            r.time_to_live == time_to_live,
            r.is_proxied == is_proxied,
    {
        Self {
            domain_name: domain_name.clone(),
            value: value.clone(),
            record_type: *record_type,
            time_to_live,
            is_proxied,
        }
    }
}

/// The address that creates a record in the zone: the same as the listing
/// address, reached with a different method.
pub open spec fn spec_create_record_url(zone: Seq<char>) -> Seq<char> {
    "https://api.cloudflare.com/client/v4/zones/"@ + zone + "/dns_records"@
}

/// Build the address that creates a record in the zone.
pub fn create_record_url(zone: &String) -> (r: String)
    ensures
        r@ == spec_create_record_url(zone@),
{
    let mut url = String::from_str("https://api.cloudflare.com/client/v4/zones/");
    url.append(zone.as_str());
    url.append("/dns_records");
    url
}

/// Accept or refuse a creation response body: the provider's `success`
/// flag decides, and only then is the returned record handed on, to be
/// checked against the intent.
pub fn accept_create_body(success: bool, result: Record) -> (r: Result<Record, Error>)
    ensures
        r == if success {
            Result::<Record, Error>::Ok(result)
        } else {
            Result::<Record, Error>::Err(Error::Server)
        },
{
    if success {
        Ok(result)
    } else {
        Err(Error::Server)
    }
}

} // verus!
