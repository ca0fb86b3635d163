//! Dispatch: given an inbound chain identifier, selects the first
//! configured provider that supports it and plans that provider's upstream
//! request; if no provider supports the chain, fails with `ChainNotFound`
//! before any network activity.

use vstd::prelude::*;

use crate::binance::BinanceProvider;
use crate::chain::lower_seq;
use crate::error::{RpcError, RpcResult};
use crate::infura::InfuraProvider;
use crate::pokt::{jsonrpc_error_code, PoktProvider, RATE_LIMIT_ERROR_CODE};
use crate::providers::{
    json_headers_only, status_rate_limited, ProviderKind, RpcQueryParams, UpstreamRequest,
};
use crate::response::RpcResponse;
use crate::table::spec_lookup;

verus! {

/// One configured upstream vendor, behind the shared provider contract.
#[derive(Debug)]
pub enum Provider {
    Infura(InfuraProvider),
    Pokt(PoktProvider),
    Binance(BinanceProvider),
}

impl Provider {
    pub open spec fn wf(&self) -> bool {
        match self {
            Provider::Infura(p) => p.wf(),
            Provider::Pokt(p) => p.wf(),
            Provider::Binance(p) => p.wf(),
        }
    }

    /// The provider's supported-chains table.
    pub open spec fn spec_table(&self) -> Seq<(Seq<char>, Seq<char>)> {
        match self {
            Provider::Infura(p) => p.supported_chains@,
            Provider::Pokt(p) => p.supported_chains@,
            Provider::Binance(p) => p.supported_chains@,
        }
    }

    pub open spec fn spec_project_id(&self) -> Seq<char> {
        match self {
            Provider::Infura(p) => p.project_id@,
            Provider::Pokt(p) => p.project_id@,
            Provider::Binance(p) => p.project_id@,
        }
    }

    /// Whether this provider serves the chain: its table, which stores
    /// lowercased keys, has an entry for the lowercased identifier.
    pub open spec fn spec_supports(&self, chain_id: Seq<char>) -> bool {
        spec_lookup(self.spec_table(), lower_seq(chain_id)) is Some
    }

    /// The URI this vendor's rule yields for a routing datum.
    pub open spec fn spec_uri(&self, chain: Seq<char>) -> Seq<char> {
        match self {
            Provider::Infura(p) => InfuraProvider::spec_uri(chain, p.project_id@),
            Provider::Pokt(p) => PoktProvider::spec_uri(chain, p.project_id@),
            Provider::Binance(_) => chain,
        }
    }

    pub fn provider_kind(&self) -> (k: ProviderKind)
        ensures
            k == match self {
                Provider::Infura(_) => ProviderKind::Infura,
                Provider::Pokt(_) => ProviderKind::Pokt,
                Provider::Binance(_) => ProviderKind::Binance,
            },
    {
        match self {
            Provider::Infura(p) => p.provider_kind(),
            Provider::Pokt(p) => p.provider_kind(),
            Provider::Binance(p) => p.provider_kind(),
        }
    }

    pub fn project_id(&self) -> (r: String)
        ensures
            r@ == self.spec_project_id(),
    {
        match self {
            Provider::Infura(p) => p.project_id(),
            Provider::Pokt(p) => p.project_id().clone(),
            Provider::Binance(p) => p.project_id().clone(),
        }
    }

    pub fn supports_caip_chainid(&self, chain_id: &str) -> (r: bool)
        requires
            self.wf(),
        ensures
            r == self.spec_supports(chain_id@),
    {
        match self {
            Provider::Infura(p) => p.supports_caip_chainid(chain_id),
            Provider::Pokt(p) => p.supports_caip_chainid(chain_id),
            Provider::Binance(p) => p.supports_caip_chainid(chain_id),
        }
    }

    pub fn supported_caip_chainids(&self) -> (r: Vec<String>)
        ensures
            r@.map_values(|s: String| s@) == self.spec_table().map_values(
                |e: (Seq<char>, Seq<char>)| e.0,
            ),
    {
        match self {
            Provider::Infura(p) => p.supported_caip_chainids(),
            Provider::Pokt(p) => p.supported_caip_chainids(),
            Provider::Binance(p) => p.supported_caip_chainids(),
        }
    }

    /// Whether an upstream response signals rate limiting under this
    /// vendor's convention: HTTP 429 for the status-based vendors, the
    /// embedded JSON-RPC error code for the body-based one.
    pub open spec fn spec_rate_limited(&self, status: u16, body: Seq<u8>) -> bool {
        match self {
            Provider::Infura(_) => status_rate_limited(status),
            Provider::Pokt(_) => jsonrpc_error_code(body) == Some(RATE_LIMIT_ERROR_CODE as int),
            Provider::Binance(_) => status_rate_limited(status),
        }
    }

    /// Passes the upstream response through untouched, except that one
    /// signaling rate limiting under this vendor's convention becomes
    /// `Throttled` and is not returned to the caller.
    pub fn inspect_proxy_response(&self, response: RpcResponse) -> (r: RpcResult<RpcResponse>)
        ensures
            match r {
                Ok(out) => {
                    &&& !self.spec_rate_limited(response.status, response.body@)
                    &&& out.status == response.status
                    &&& out.headers == response.headers
                    &&& out.body == response.body
                },
                Err(e) => {
                    &&& e == RpcError::Throttled
                    &&& self.spec_rate_limited(response.status, response.body@)
                },
            },
    {
        match self {
            Provider::Infura(p) => p.inspect_proxy_response(response),
            Provider::Pokt(p) => p.inspect_proxy_response(response),
            Provider::Binance(p) => p.inspect_proxy_response(response),
        }
    }

    /// Builds this vendor's upstream request, or fails with
    /// `ChainNotFound` exactly when the chain is unsupported.
    pub fn build_proxy_request(
        &self,
        method: String,
        query_params: &RpcQueryParams,
        body: Vec<u8>,
    ) -> (r: RpcResult<UpstreamRequest>)
        requires
            self.wf(),
        ensures
            match r {
                Ok(req) => {
                    &&& spec_lookup(self.spec_table(), lower_seq(query_params.chain_id@))
                        matches Some(chain)
                    &&& req.uri@ == self.spec_uri(chain)
                    &&& req.method@ == method@
                    &&& req.body@ == body@
                    &&& json_headers_only(
                        req.headers@.map_values(|h: (String, String)| (h.0@, h.1@)),
                    )
                },
                Err(e) => {
                    &&& e == RpcError::ChainNotFound
                    &&& !self.spec_supports(query_params.chain_id@)
                },
            },
    {
        match self {
            Provider::Infura(p) => p.build_proxy_request(method, query_params, body),
            Provider::Pokt(p) => p.build_proxy_request(method, query_params, body),
            Provider::Binance(p) => p.build_proxy_request(method, query_params, body),
        }
    }
}

/// The statically configured provider set dispatch selects from.
#[derive(Debug)]
pub struct ProviderRegistry {
    pub providers: Vec<Provider>,
}

impl ProviderRegistry {
    pub open spec fn wf(&self) -> bool {
        forall|i: int| 0 <= i < self.providers@.len() ==> (#[trigger] self.providers@[i]).wf()
    }

    /// Selects the first configured provider that supports the chain.
    pub fn select(&self, chain_id: &str) -> (r: Option<usize>)
        requires
            self.wf(),
        ensures
            match r {
                Some(i) => {
                    &&& i < self.providers@.len()
                    &&& self.providers@[i as int].spec_supports(chain_id@)
                    &&& forall|j: int|
                        0 <= j < i ==> !(#[trigger] self.providers@[j]).spec_supports(chain_id@)
                },
                None => forall|j: int|
                    0 <= j < self.providers@.len() ==> !(#[trigger] self.providers@[
                        j
                    ]).spec_supports(chain_id@),
            },
    {
        let n = self.providers.len();
        let mut i: usize = 0;
        while i < n
            invariant
                self.wf(),
                n == self.providers@.len(),
                i <= n,
                forall|j: int| 0 <= j < i ==> !(#[trigger] self.providers@[j]).spec_supports(
                    chain_id@,
                ),
            decreases n - i,
        {
            if self.providers[i].supports_caip_chainid(chain_id) {
                return Some(i);
            }
            i += 1;
        }
        None
    }

    /// Plans one proxy call: picks the first capable provider and builds
    /// its upstream request. Fails with `ChainNotFound`, before any
    /// network activity, exactly when no configured provider supports the
    /// requested chain.
    pub fn plan_proxy(&self, method: String, query_params: &RpcQueryParams, body: Vec<u8>) -> (r:
        RpcResult<(usize, UpstreamRequest)>)
        requires
            self.wf(),
        ensures
            match r {
                Ok((i, req)) => {
                    &&& i < self.providers@.len()
                    &&& self.providers@[i as int].spec_supports(query_params.chain_id@)
                    &&& forall|j: int|
                        0 <= j < i ==> !(#[trigger] self.providers@[j]).spec_supports(
                            query_params.chain_id@,
                        )
                    &&& spec_lookup(
                        self.providers@[i as int].spec_table(),
                        lower_seq(query_params.chain_id@),
                    ) matches Some(chain)
                    &&& req.uri@ == self.providers@[i as int].spec_uri(chain)
                    &&& req.method@ == method@
                    &&& req.body@ == body@
                    &&& json_headers_only(
                        req.headers@.map_values(|h: (String, String)| (h.0@, h.1@)),
                    )
                },
                Err(e) => {
                    &&& e == RpcError::ChainNotFound
                    &&& forall|j: int|
                        0 <= j < self.providers@.len() ==> !(#[trigger] self.providers@[
                            j
                        ]).spec_supports(query_params.chain_id@)
                },
            },
    {
        let i = match self.select(query_params.chain_id.as_str()) {
            Some(i) => i,
            None => {
                return Err(RpcError::ChainNotFound);
            },
        };
        match self.providers[i].build_proxy_request(method, query_params, body) {
            Ok(req) => Ok((i, req)),
            Err(_) => {
                // The selected provider supports the chain, so its builder
                // cannot report an unsupported one.
                proof {
                    assert(false);
                }
                Err(RpcError::ChainNotFound)
            },
        }
    }
}

/// Case normalization: a chain identifier is supported exactly when its
/// lowercased form is, and both look up the same routing datum, so a
/// mixed-case identifier routes exactly as its lowercase form does.
pub proof fn lemma_case_normalized_routing(p: Provider, chain_id: Seq<char>)
    ensures
        p.spec_supports(chain_id) == p.spec_supports(lower_seq(chain_id)),
        spec_lookup(p.spec_table(), lower_seq(chain_id)) == spec_lookup(
            p.spec_table(),
            lower_seq(lower_seq(chain_id)),
        ),
{
    crate::chain::lemma_lower_idempotent(chain_id);
}

/// The chain-support query is a pure function of the provider's immutable
/// state: two results of `supports_caip_chainid` for one provider and one
/// identifier are equal, however often the call is repeated.
pub proof fn lemma_supports_chain_idempotent(p: Provider, chain_id: Seq<char>, r1: bool, r2: bool)
    requires
        r1 == p.spec_supports(chain_id),
        r2 == p.spec_supports(chain_id),
    ensures
        r1 == r2,
{
}

/// The supported-chains listing is a pure function of the provider's
/// immutable state: two results of `supported_caip_chainids` for one
/// provider list the same identifiers.
pub proof fn lemma_supported_chains_idempotent(p: Provider, r1: Seq<Seq<char>>, r2: Seq<Seq<char>>)
    requires
        r1 == p.spec_table().map_values(|e: (Seq<char>, Seq<char>)| e.0),
        r2 == p.spec_table().map_values(|e: (Seq<char>, Seq<char>)| e.0),
    ensures
        r1 == r2,
{
}

} // verus!
