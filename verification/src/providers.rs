//! What every provider shares: the inbound request descriptor, the
//! outbound request it assembles, and the two per-vendor hooks (URI
//! construction and rate-limit detection) factored into common helpers.

use vstd::prelude::*;

verus! {

/// The vendor behind a provider instance; used for selection and
/// diagnostics, never for behavior branching outside the provider itself.
#[derive(Clone, Copy, Debug, PartialEq, Eq, Structural)]
pub enum ProviderKind {
    Infura,
    Pokt,
    Binance,
}

/// The normalized inbound request descriptor: the chain identifier the
/// external router extracted. Created by the router, read-only to the core.
#[derive(Debug)]
pub struct RpcQueryParams {
    pub chain_id: String,
}

/// The outbound JSON-RPC-over-HTTP call a provider builds: method as
/// given, `Content-Type: application/json` injected, body passed through
/// verbatim, to the vendor-specific URI.
#[derive(Debug)]
pub struct UpstreamRequest {
    pub method: String,
    pub uri: String,
    pub headers: Vec<(String, String)>,
    pub body: Vec<u8>,
}

/// The header set every upstream request carries: exactly the JSON
/// content type.
pub open spec fn json_headers_only(headers: Seq<(Seq<char>, Seq<char>)>) -> bool {
    &&& headers.len() == 1
    &&& headers[0].0 == "Content-Type"@
    &&& headers[0].1 == "application/json"@
}

/// A subdomain- or path-templated upstream URI: the chain's routing datum
/// and the project identifier spliced into the vendor's fixed skeleton.
pub open spec fn templated_uri(
    prefix: Seq<char>,
    chain: Seq<char>,
    mid: Seq<char>,
    project: Seq<char>,
) -> Seq<char> {
    prefix + chain + mid + project
}

/// Splices a chain's routing datum and a project identifier into a
/// vendor's URI skeleton.
pub fn build_templated_uri(prefix: &str, chain: &String, mid: &str, project: &String) -> (r:
    String)
    ensures
        r@ == templated_uri(prefix@, chain@, mid@, project@),
{
    let mut r = String::from_str(prefix);
    r.append(chain.as_str());
    r.append(mid);
    r.append(project.as_str());
    proof {
        assert(r@ =~= templated_uri(prefix@, chain@, mid@, project@));
    }
    r
}

/// The injected header collection for an upstream JSON-RPC call.
pub fn json_headers() -> (r: Vec<(String, String)>)
    ensures
        json_headers_only(r@.map_values(|h: (String, String)| (h.0@, h.1@))),
{
    let mut r: Vec<(String, String)> = Vec::new();
    r.push((String::from_str("Content-Type"), String::from_str("application/json")));
    proof {
        assert(r@.map_values(|h: (String, String)| (h.0@, h.1@)) =~= seq![
            ("Content-Type"@, "application/json"@),
        ]);
    }
    r
}

/// Assembles the outbound request around an already-built URI: method and
/// body pass through verbatim, the JSON content type is injected.
pub fn assemble_request(method: String, uri: String, body: Vec<u8>) -> (r: UpstreamRequest)
    ensures
        r.method@ == method@,
        r.uri@ == uri@,
        r.body@ == body@,
        json_headers_only(r.headers@.map_values(|h: (String, String)| (h.0@, h.1@))),
{
    UpstreamRequest { method, uri, headers: json_headers(), body }
}

/// Status-based rate-limit signal: HTTP 429 on the response, whatever the
/// body holds.
pub open spec fn status_rate_limited(status: u16) -> bool {
    status == 429
}

/// Whether an upstream response status signals rate limiting, for vendors
/// whose signal is status-only.
pub fn is_status_rate_limited(status: u16) -> (r: bool)
    ensures
        r == status_rate_limited(status),
{
    status == 429
}

} // verus!
