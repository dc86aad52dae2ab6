//! Construction of the outbound request for transparent forwarding: the
//! upstream URI is the upstream address with the inbound path and query
//! appended verbatim; method, protocol version and headers are preserved,
//! and a marker header naming the tool and its version is added. The
//! transport that sends the built request lives outside the library.

use vstd::prelude::*;
use vstd::string::*;

use crate::config::Configuration;

verus! {

/// What the listener hands over of an inbound request that is to be
/// forwarded.
pub struct RequestHead {
    pub method: String,
    pub version: String,
    pub path_and_query: String,
    pub headers: Vec<(String, String)>,
}

/// The outbound request, ready for the transport.
pub struct ProxyRequestHead {
    pub uri: String,
    pub method: String,
    pub version: String,
    pub headers: Vec<(String, String)>,
}

/// Builds the outbound request: the upstream URI gains the inbound path and
/// query verbatim; method, version and every header are kept unchanged, and
/// exactly one marker header is appended after them.
pub fn build_proxy_request(config: &Configuration, req: RequestHead) -> (p: ProxyRequestHead)
    ensures
        p.uri@ == "http://"@ + config.proxy_address@ + req.path_and_query@,
        p.method == req.method,
        p.version == req.version,
        p.headers@.len() == req.headers@.len() + 1,
        forall|i: int| 0 <= i < req.headers@.len() ==> p.headers@[i] == req.headers@[i],
        p.headers@[req.headers@.len() as int].0@ == "x-trouble-maker-agent"@,
        p.headers@[req.headers@.len() as int].1@ == "0.1"@,
{
    let mut uri = "http://".to_owned();
    uri.append(config.proxy_address.as_str());
    uri.append(req.path_and_query.as_str());
    let mut headers = req.headers;
    headers.push(("x-trouble-maker-agent".to_owned(), "0.1".to_owned()));
    ProxyRequestHead { uri, method: req.method, version: req.version, headers }
}

} // verus!
