//! The upstream response as the core sees it, and the body replay utility.
//!
//! A streamed HTTP body can be consumed only once, so the surrounding
//! server materializes it into bytes before handing the response to the
//! core. Replay then forks the materialized body into an inspection copy
//! and a response carrying the very same bytes, leaving status and headers
//! untouched, so rate-limit inspection never destroys what is forwarded to
//! the caller.

use vstd::prelude::*;

verus! {

/// A fully-materialized upstream HTTP response: status, headers, body.
#[derive(Debug)]
pub struct RpcResponse {
    pub status: u16,
    pub headers: Vec<(String, String)>,
    pub body: Vec<u8>,
}

/// An exact copy of a byte vector.
fn clone_bytes(v: &Vec<u8>) -> (r: Vec<u8>)
    ensures
        r@ == v@,
{
    let mut r: Vec<u8> = Vec::new();
    let n = v.len();
    for i in 0..n
        invariant
            n == v@.len(),
            r@ == v@.take(i as int),
    {
        r.push(v[i]);
        proof {
            assert(r@ =~= v@.take(i + 1));
        }
    }
    proof {
        assert(v@.take(n as int) =~= v@);
    }
    r
}

/// Forks a response into an in-memory copy of its body bytes and a
/// response carrying those same bytes, with status and headers unchanged.
pub fn copy_body_bytes(response: RpcResponse) -> (r: (Vec<u8>, RpcResponse))
    ensures
        r.0@ == response.body@,
        r.1.status == response.status,
        r.1.headers == response.headers,
        r.1.body == response.body,
{
    let copy = clone_bytes(&response.body);
    (copy, response)
}

} // verus!
