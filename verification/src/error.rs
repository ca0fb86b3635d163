//! The closed set of failure kinds a provider can signal.

use vstd::prelude::*;

verus! {

/// Every failure of a proxy call is one of these kinds; the router maps
/// them to client-facing statuses outside this crate.
#[derive(Clone, Copy, Debug, PartialEq, Eq, Structural)]
pub enum RpcError {
    /// The requested chain identifier is not in the provider's
    /// supported-chains table; no network call was planned.
    ChainNotFound,
    /// The upstream signaled rate limiting, via its status code or an
    /// error code embedded in the response body.
    Throttled,
    /// The outbound call failed at the network or protocol level, or the
    /// response body could not be fully read.
    UpstreamTransport,
    /// Building the outbound request failed; a configuration defect, not
    /// a caller error.
    RequestConstruction,
}

pub type RpcResult<T> = Result<T, RpcError>;

} // verus!
