//! The path-templated vendor: rate limiting is signaled by a specific
//! numeric error code inside a JSON-RPC error envelope in the response
//! body, so inspection must read the body and replay it for the caller.

use vstd::prelude::*;

use crate::chain::lower_seq;
use crate::error::{RpcError, RpcResult};
use crate::providers::{
    assemble_request, build_templated_uri, json_headers_only, templated_uri, ProviderKind,
    RpcQueryParams, UpstreamRequest,
};
use crate::response::{copy_body_bytes, RpcResponse};
use crate::table::{spec_lookup, ChainTable};

verus! {

/// The JSON-RPC error code this vendor uses to signal a rate-limited
/// request.
pub const RATE_LIMIT_ERROR_CODE: i32 = -32068;

/// The error code embedded in a JSON-RPC error envelope, as a function of
/// the body bytes alone; none when the body is not such an envelope or
/// carries no error object.
pub uninterp spec fn jsonrpc_error_code(body: Seq<u8>) -> Option<int>;

/// Relies on serde_json::from_slice and the jsonrpc crate's `Response`
/// envelope: deserializing the body and reading the embedded error code is
/// a function of the bytes alone; a body that does not deserialize, or
/// deserializes without an error object, yields none.
#[verifier::external_body]
fn parse_jsonrpc_error_code(body: &[u8]) -> (r: Option<i32>)
    ensures
        match r {
            Some(code) => jsonrpc_error_code(body@) == Some(code as int),
            None => jsonrpc_error_code(body@) is None,
        },
{
    serde_json::from_slice::<jsonrpc::Response>(body).ok().and_then(|response| response.error).map(
        |err| err.code,
    )
}

/// Whether an error code extracted from a response body is this vendor's
/// rate-limit signal; any other code, or no code at all, is not.
pub fn is_rate_limit_code(code: Option<i32>) -> (r: bool)
    ensures
        r == (code == Some(RATE_LIMIT_ERROR_CODE)),
{
    match code {
        Some(c) => c == RATE_LIMIT_ERROR_CODE,
        None => false,
    }
}

/// Body-based rate-limit detection: true exactly when the body is a
/// JSON-RPC error envelope whose error code is the vendor's rate-limit
/// code.
pub fn is_rate_limited(body_bytes: &[u8]) -> (r: bool)
    ensures
        r == (jsonrpc_error_code(body_bytes@) == Some(RATE_LIMIT_ERROR_CODE as int)),
{
    is_rate_limit_code(parse_jsonrpc_error_code(body_bytes))
}

#[derive(Debug)]
pub struct PoktProvider {
    pub project_id: String,
    pub supported_chains: ChainTable,
}

impl PoktProvider {
    pub open spec fn wf(&self) -> bool {
        self.supported_chains.wf()
    }

    /// The vendor's URI rule:
    /// `https://{chain}.gateway.pokt.network/v1/lb/{projectId}`.
    pub open spec fn spec_uri(chain: Seq<char>, project: Seq<char>) -> Seq<char> {
        templated_uri("https://"@, chain, ".gateway.pokt.network/v1/lb/"@, project)
    }

    /// Builds the upstream request for the requested chain, or fails with
    /// `ChainNotFound` — and plans no network call — exactly when the
    /// chain identifier, lowercased, is not in the supported-chains table.
    pub fn build_proxy_request(
        &self,
        method: String,
        query_params: &RpcQueryParams,
        body: Vec<u8>,
    ) -> (r: RpcResult<UpstreamRequest>)
        requires
            self.wf(),
        ensures
            match r {
                Ok(req) => {
                    &&& spec_lookup(self.supported_chains@, lower_seq(query_params.chain_id@))
                        matches Some(chain)
                    &&& req.uri@ == Self::spec_uri(chain, self.project_id@)
                    &&& req.method@ == method@
                    &&& req.body@ == body@
                    &&& json_headers_only(
                        req.headers@.map_values(|h: (String, String)| (h.0@, h.1@)),
                    )
                },
                Err(e) => {
                    &&& e == RpcError::ChainNotFound
                    &&& spec_lookup(
                        self.supported_chains@,
                        lower_seq(query_params.chain_id@),
                    ) is None
                },
            },
    {
        let chain = match self.supported_chains.lookup(query_params.chain_id.as_str()) {
            Some(chain) => chain,
            None => {
                return Err(RpcError::ChainNotFound);
            },
        };
        let uri = build_templated_uri(
            "https://",
            chain,
            ".gateway.pokt.network/v1/lb/",
            &self.project_id,
        );
        Ok(assemble_request(method, uri, body))
    }

    /// Reads the body through replay and passes the response through
    /// untouched, except that a body carrying the vendor's rate-limit
    /// error code becomes `Throttled` and is not returned to the caller.
    pub fn inspect_proxy_response(&self, response: RpcResponse) -> (r: RpcResult<RpcResponse>)
        ensures
            match r {
                Ok(out) => {
                    &&& jsonrpc_error_code(response.body@) != Some(RATE_LIMIT_ERROR_CODE as int)
                    &&& out.status == response.status
                    &&& out.headers == response.headers
                    &&& out.body == response.body
                },
                Err(e) => {
                    &&& e == RpcError::Throttled
                    &&& jsonrpc_error_code(response.body@) == Some(RATE_LIMIT_ERROR_CODE as int)
                },
            },
    {
        let (body_bytes, response) = copy_body_bytes(response);
        if is_rate_limited(body_bytes.as_slice()) {
            return Err(RpcError::Throttled);
        }
        Ok(response)
    }

    /// Pure lookup against immutable state: whether the chain identifier,
    /// lowercased, has an entry in the supported-chains table.
    pub fn supports_caip_chainid(&self, chain_id: &str) -> (r: bool)
        requires
            self.wf(),
        ensures
            r == (spec_lookup(self.supported_chains@, lower_seq(chain_id@)) is Some),
    {
        self.supported_chains.contains(chain_id)
    }

    /// The full supported set, for registry construction and diagnostics.
    pub fn supported_caip_chainids(&self) -> (r: Vec<String>)
        ensures
            r@.map_values(|s: String| s@) == self.supported_chains@.map_values(
                |e: (Seq<char>, Seq<char>)| e.0,
            ),
    {
        self.supported_chains.keys()
    }

    pub fn provider_kind(&self) -> (k: ProviderKind)
        ensures
            k == ProviderKind::Pokt,
    {
        ProviderKind::Pokt
    }

    pub fn project_id(&self) -> (r: &String)
        ensures
            r@ == self.project_id@,
    {
        &self.project_id
    }
}

} // verus!
