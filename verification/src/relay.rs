//! The HTTP relay: a request descriptor passed through, unchanged, to the
//! host's networking capability, and the rule that classifies the host's
//! answer. The call itself is the host's; everything the plugin decides is
//! here.

use vstd::prelude::*;

verus! {

/// A request descriptor as the host hands it in: an optional method name, the
/// target URL, and a header mapping as ordered pairs.
pub struct RelayRequest {
    pub method: Option<String>,
    pub url: String,
    pub headers: Vec<(String, String)>,
}

/// A fully prepared host call: the forwarded request plus an optional body.
pub struct HostCall {
    pub method: Option<String>,
    pub url: String,
    pub headers: Vec<(String, String)>,
    pub body: Option<String>,
}

/// The return code reported when the host fails to produce an addressable
/// result.
pub const ALLOCATION_FAILURE_CODE: u32 = 1;

/// Prepares the host call for a GET relay: method, URL and headers are
/// forwarded unchanged, and no body is sent.
pub fn http_get(req: RelayRequest) -> (c: HostCall)
    ensures
        c.method == req.method,
        c.url == req.url,
        c.headers == req.headers,
        c.body is None,
{
    HostCall { method: req.method, url: req.url, headers: req.headers, body: None }
}

/// Prepares the host call for a POST relay: method, URL and headers are
/// forwarded unchanged, and the body is sent as given.
pub fn http_post(req: RelayRequest, data: String) -> (c: HostCall)
    ensures
        c.method == req.method,
        c.url == req.url,
        c.headers == req.headers,
        c.body == Some(data),
{
    HostCall { method: req.method, url: req.url, headers: req.headers, body: Some(data) }
}

/// Classifies the memory offset the host answered with: offset zero means the
/// host failed to allocate, reported with the fixed non-zero return code;
/// every other offset is the successful result.
pub fn relay_outcome(offset: u64) -> (r: Result<u64, u32>)
    ensures
        offset == 0 ==> r == Err::<u64, u32>(ALLOCATION_FAILURE_CODE),
        offset != 0 ==> r == Ok::<u64, u32>(offset),
{
    if offset == 0 {
        Err(ALLOCATION_FAILURE_CODE)
    } else {
        Ok(offset)
    }
}

} // verus!
