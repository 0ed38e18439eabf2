//! What is sent to the time-series sink: the write endpoint, the
//! credentials header, the body of line-protocol text, and which responses
//! count as delivered.

use crate::record::{batch_text, batch_to_line, views, SHop};
use vstd::prelude::*;

verus! {

/// Measurement name under which hop records are written.
pub const MEASUREMENT: &'static str = "pingmon";

/// Content type of the request body.
pub const CONTENT_TYPE: &'static str = "text/plain; charset=utf-8";

/// Media type accepted in the response.
pub const ACCEPT: &'static str = "application/json";

/// The write endpoint of the sink at `host`, for nanosecond timestamps.
pub open spec fn write_url_spec(host: Seq<char>, org: Seq<char>, bucket: Seq<char>) -> Seq<char> {
    host + "/api/v2/write?org="@ + org + "&bucket="@ + bucket + "&precision=ns"@
}

/// Value of the `Authorization` header for an API token.
pub open spec fn authorization_spec(api_key: Seq<char>) -> Seq<char> {
    "Token "@ + api_key
}

/// The write endpoint of the sink at `host`, for nanosecond timestamps.
pub fn write_url(host: &str, org: &str, bucket: &str) -> (r: String)
    ensures
        r@ == write_url_spec(host@, org@, bucket@),
{
    let mut s = String::from_str(host);
    s.append("/api/v2/write?org=");
    s.append(org);
    s.append("&bucket=");
    s.append(bucket);
    s.append("&precision=ns");
    assert(s@ =~= write_url_spec(host@, org@, bucket@));
    s
}

/// Value of the `Authorization` header for an API token.
pub fn authorization(api_key: &str) -> (r: String)
    ensures
        r@ == authorization_spec(api_key@),
{
    let mut s = String::from_str("Token ");
    s.append(api_key);
    s
}

/// One write request for the records of one destination.
pub struct ExportRequest {
    /// The destination whose trace the body holds.
    pub destination: String,
    /// The write endpoint.
    pub url: String,
    /// Value of the `Authorization` header.
    pub authorization: String,
    /// The records as line-protocol text.
    pub body: String,
}

/// The write request for `batch`, the records of one destination's trace;
/// `None` for an empty batch, which names no destination.
pub fn prepare_export(api_key: &str, host: &str, org: &str, bucket: &str, batch: Vec<SHop>) -> (r:
    Option<ExportRequest>)
    ensures
        batch@.len() == 0 <==> r is None,
        r matches Some(q) ==> {
            &&& q.destination@ == batch@[0].final_dest@
            &&& q.url@ == write_url_spec(host@, org@, bucket@)
            &&& q.authorization@ == authorization_spec(api_key@)
            &&& q.body@ == batch_text(views(batch@), MEASUREMENT@)
        },
{
    if batch.len() == 0 {
        return None;
    }
    let destination = batch[0].final_dest.clone();
    let url = write_url(host, org, bucket);
    let body = batch_to_line(batch, MEASUREMENT);
    Some(ExportRequest { destination, url, authorization: authorization(api_key), body })
}

/// Whether the sink accepted a write: status 200 or 204. Any other status
/// is a failed export, which is not retried.
pub fn export_succeeded(status: u16) -> (r: bool)
    ensures
        r == (status == 200 || status == 204),
{
    status == 200 || status == 204
}

} // verus!
