use vstd::prelude::*;
use vstd::string::StringExecFns;

use crate::rest_api::cloudflare::error::Error;

verus! {

/// The address of one record, for delete calls.
pub open spec fn spec_delete_record_url(zone: Seq<char>, record: Seq<char>) -> Seq<char> {
    "https://api.cloudflare.com/client/v4/zones/"@ + zone + "/dns_records/"@ + record
}

/// Build the address of the record to delete.
pub fn delete_record_url(zone: &String, record: &String) -> (r: String)
    ensures
        r@ == spec_delete_record_url(zone@, record@),
{
    let mut url = String::from_str("https://api.cloudflare.com/client/v4/zones/");
    url.append(zone.as_str());
    url.append("/dns_records/");
    url.append(record.as_str());
    url
}

/// Accept or refuse a deletion response body: success is the absence of an
/// error, and a body with `success` false is a server error.
pub fn accept_delete_body(success: bool) -> (r: Result<(), Error>)
    ensures
        r == if success {
            Result::<(), Error>::Ok(())
        } else {
            Result::<(), Error>::Err(Error::Server)
        },
{
    if success {
        Ok(())
    } else {
        Err(Error::Server)
    }
}

} // verus!
