use vstd::prelude::*;
use vstd::string::StringExecFns;

use super::Record;
use crate::rest_api::cloudflare::error::Error;

verus! {

/// The address that lists a zone's records.
pub open spec fn spec_list_record_url(zone: Seq<char>) -> Seq<char> {
    "https://api.cloudflare.com/client/v4/zones/"@ + zone + "/dns_records"@
}

/// Build the address that lists the zone's records.
pub fn list_record_url(zone: &String) -> (r: String)
    ensures
        r@ == spec_list_record_url(zone@),
{
    let mut url = String::from_str("https://api.cloudflare.com/client/v4/zones/");
    url.append(zone.as_str());
    url.append("/dns_records");
    url
}

/// Accept or refuse a listing response body: the provider's own `success`
/// flag decides, independent of the HTTP status — a well-formed body with
/// `success` false is a server error, never a record list.
pub fn accept_list_body(success: bool, records: Vec<Record>) -> (r: Result<Vec<Record>, Error>)
    ensures
        r == if success {
            Result::<Vec<Record>, Error>::Ok(records)
        } else {
            Result::<Vec<Record>, Error>::Err(Error::Server)
        },
{
    if success {
        Ok(records)
    } else {
        Err(Error::Server)
    }
}

} // verus!
