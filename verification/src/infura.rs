//! The subdomain-templated vendor: the chain's routing datum is an
//! upstream subdomain, and rate limiting is signaled by HTTP status 429,
//! so the response body never needs to be read for inspection.

use vstd::prelude::*;

use crate::chain::lower_seq;
use crate::error::{RpcError, RpcResult};
use crate::providers::{
    assemble_request, build_templated_uri, is_status_rate_limited, json_headers_only,
    status_rate_limited, templated_uri, ProviderKind, RpcQueryParams, UpstreamRequest,
};
use crate::response::RpcResponse;
use crate::table::{spec_lookup, ChainTable};

verus! {

#[derive(Debug)]
pub struct InfuraProvider {
    pub project_id: String,
    pub supported_chains: ChainTable,
}

impl InfuraProvider {
    pub open spec fn wf(&self) -> bool {
        self.supported_chains.wf()
    }

    /// The vendor's URI rule: `https://{chain}.infura.io/v3/{projectId}`.
    pub open spec fn spec_uri(chain: Seq<char>, project: Seq<char>) -> Seq<char> {
        templated_uri("https://"@, chain, ".infura.io/v3/"@, project)
    }

    /// Builds the upstream request for the requested chain, or fails with
    /// `ChainNotFound` — and plans no network call — exactly when the
    /// chain identifier, lowercased, is not in the supported-chains table.
    pub fn build_proxy_request(
        &self,
        method: String,
        query_params: &RpcQueryParams,
        body: Vec<u8>,
    ) -> (r: RpcResult<UpstreamRequest>)
        requires
            self.wf(),
        ensures
            match r {
                Ok(req) => {
                    &&& spec_lookup(self.supported_chains@, lower_seq(query_params.chain_id@))
                        matches Some(chain)
                    &&& req.uri@ == Self::spec_uri(chain, self.project_id@)
                    &&& req.method@ == method@
                    &&& req.body@ == body@
                    &&& json_headers_only(
                        req.headers@.map_values(|h: (String, String)| (h.0@, h.1@)),
                    )
                },
                Err(e) => {
                    &&& e == RpcError::ChainNotFound
                    &&& spec_lookup(
                        self.supported_chains@,
                        lower_seq(query_params.chain_id@),
                    ) is None
                },
            },
    {
        let chain = match self.supported_chains.lookup(query_params.chain_id.as_str()) {
            Some(chain) => chain,
            None => {
                return Err(RpcError::ChainNotFound);
            },
        };
        let uri = build_templated_uri("https://", chain, ".infura.io/v3/", &self.project_id);
        Ok(assemble_request(method, uri, body))
    }

    /// Status-based rate-limit detection: HTTP 429, whatever the body.
    pub fn is_rate_limited(&self, response: &RpcResponse) -> (r: bool)
        ensures
            r == status_rate_limited(response.status),
    {
        is_status_rate_limited(response.status)
    }

    /// Passes the upstream response through untouched, except that a
    /// rate-limiting response (status 429) becomes `Throttled` and is not
    /// returned to the caller.
    pub fn inspect_proxy_response(&self, response: RpcResponse) -> (r: RpcResult<RpcResponse>)
        ensures
            match r {
                Ok(out) => {
                    &&& !status_rate_limited(response.status)
                    &&& out.status == response.status
                    &&& out.headers == response.headers
                    &&& out.body == response.body
                },
                Err(e) => {
                    &&& e == RpcError::Throttled
                    &&& status_rate_limited(response.status)
                },
            },
    {
        if self.is_rate_limited(&response) {
            return Err(RpcError::Throttled);
        }
        Ok(response)
    }

    /// Pure lookup against immutable state: whether the chain identifier,
    /// lowercased, has an entry in the supported-chains table.
    pub fn supports_caip_chainid(&self, chain_id: &str) -> (r: bool)
        requires
            self.wf(),
        ensures
            r == (spec_lookup(self.supported_chains@, lower_seq(chain_id@)) is Some),
    {
        self.supported_chains.contains(chain_id)
    }

    /// The full supported set, for registry construction and diagnostics.
    pub fn supported_caip_chainids(&self) -> (r: Vec<String>)
        ensures
            r@.map_values(|s: String| s@) == self.supported_chains@.map_values(
                |e: (Seq<char>, Seq<char>)| e.0,
            ),
    {
        self.supported_chains.keys()
    }

    pub fn provider_kind(&self) -> (k: ProviderKind)
        ensures
            k == ProviderKind::Infura,
    {
        ProviderKind::Infura
    }

    pub fn project_id(&self) -> (r: String)
        ensures
            r@ == self.project_id@,
    {
        self.project_id.clone()
    }
}

} // verus!
