use vstd::prelude::*;
use vstd::string::StringExecFns;

use super::Record;
use crate::rest_api::cloudflare::error::Error;

verus! {

/// What an update call sends: either a new address value or a new proxied
/// flag, never both in one call. The surrounding process encodes the one
/// field present as the provider's JSON body.
pub enum RequestBody {
    Value { value: String },
    Proxied { is_proxied: bool },
}

impl RequestBody {
    /// An update that replaces the record's address value.
    pub fn from_value(value: &String) -> (r: Self)
        ensures
            r matches RequestBody::Value { value: v } && v@ == value@,
    {
        RequestBody::Value { value: value.clone() }
    }

    /// An update that replaces the record's proxied flag.
    pub fn from_is_proxied(is_proxied: bool) -> (r: Self)
        ensures
            r == (RequestBody::Proxied { is_proxied }),
    {
        RequestBody::Proxied { is_proxied }
    }
}

/// The address of one record, for update calls.
pub open spec fn spec_update_record_url(zone: Seq<char>, record: Seq<char>) -> Seq<char> {
    "https://api.cloudflare.com/client/v4/zones/"@ + zone + "/dns_records/"@ + record
}

/// Build the address of the record to update.
pub fn update_record_url(zone: &String, record: &String) -> (r: String)
    ensures
        r@ == spec_update_record_url(zone@, record@),
{
    let mut url = String::from_str("https://api.cloudflare.com/client/v4/zones/");
    url.append(zone.as_str());
    url.append("/dns_records/");
    url.append(record.as_str());
    url
}

/// Accept or refuse an update response body: the provider answers with the
/// updated record, or with null in its place, and null is a server error.
pub fn accept_update_body(result: Option<Record>) -> (r: Result<Record, Error>)
    ensures
        r == match result {
            Some(record) => Result::<Record, Error>::Ok(record),
            None => Result::<Record, Error>::Err(Error::Server),
        },
{
    match result {
        Some(record) => Ok(record),
        None => Err(Error::Server),
    }
}

} // verus!
