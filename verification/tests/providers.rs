use rpc_proxy_core::binance::BinanceProvider;
use rpc_proxy_core::error::RpcError;
use rpc_proxy_core::infura::InfuraProvider;
use rpc_proxy_core::pokt::{is_rate_limit_code, is_rate_limited, PoktProvider};
use rpc_proxy_core::providers::{ProviderKind, RpcQueryParams};
use rpc_proxy_core::response::RpcResponse;
use rpc_proxy_core::table::ChainTable;

fn infura(project_id: &str) -> InfuraProvider {
    let mut t = ChainTable::new();
    assert!(t.insert(String::from("eip155:1"), String::from("mainnet")));
    InfuraProvider { project_id: String::from(project_id), supported_chains: t }
}

fn pokt(project_id: &str) -> PoktProvider {
    let mut t = ChainTable::new();
    assert!(t.insert(String::from("eip155:137"), String::from("poly")));
    PoktProvider { project_id: String::from(project_id), supported_chains: t }
}

fn binance(project_id: &str) -> BinanceProvider {
    let mut t = ChainTable::new();
    assert!(t.insert(
        String::from("eip155:56"),
        String::from("https://bsc-dataseed.binance.org"),
    ));
    BinanceProvider { project_id: String::from(project_id), supported_chains: t }
}

fn query(chain_id: &str) -> RpcQueryParams {
    RpcQueryParams { chain_id: String::from(chain_id) }
}

fn response(status: u16, body: &[u8]) -> RpcResponse {
    RpcResponse {
        status,
        headers: vec![(String::from("X-Upstream"), String::from("yes"))],
        body: body.to_vec(),
    }
}

#[test]
fn infura_uri_from_template() {
    let p = infura("abc123");
    let req = p
        .build_proxy_request(String::from("POST"), &query("eip155:1"), b"{}".to_vec())
        .unwrap();
    assert_eq!(req.uri, "https://mainnet.infura.io/v3/abc123");
    assert_eq!(req.method, "POST");
    assert_eq!(req.body, b"{}".to_vec());
    assert_eq!(
        req.headers,
        vec![(String::from("Content-Type"), String::from("application/json"))]
    );
}

#[test]
fn pokt_uri_from_template() {
    let p = pokt("pid99");
    let req = p
        .build_proxy_request(String::from("POST"), &query("eip155:137"), b"{}".to_vec())
        .unwrap();
    assert_eq!(req.uri, "https://poly.gateway.pokt.network/v1/lb/pid99");
}

#[test]
fn binance_uri_taken_from_table() {
    let p = binance("unused");
    let req = p
        .build_proxy_request(String::from("POST"), &query("eip155:56"), b"{}".to_vec())
        .unwrap();
    assert_eq!(req.uri, "https://bsc-dataseed.binance.org");
}

#[test]
fn unknown_chain_is_chain_not_found() {
    let p = infura("abc123");
    let r = p.build_proxy_request(String::from("POST"), &query("eip155:999"), Vec::new());
    assert_eq!(r.unwrap_err(), RpcError::ChainNotFound);
    let r = pokt("pid").build_proxy_request(String::from("POST"), &query("eip155:1"), Vec::new());
    assert_eq!(r.unwrap_err(), RpcError::ChainNotFound);
    let r = binance("x").build_proxy_request(String::from("POST"), &query("other:1"), Vec::new());
    assert_eq!(r.unwrap_err(), RpcError::ChainNotFound);
}

#[test]
fn mixed_case_chain_routes_like_lowercase() {
    let p = infura("xyz");
    let upper = p
        .build_proxy_request(String::from("POST"), &query("EIP155:1"), Vec::new())
        .unwrap();
    let lower = p
        .build_proxy_request(String::from("POST"), &query("eip155:1"), Vec::new())
        .unwrap();
    assert_eq!(upper.uri, "https://mainnet.infura.io/v3/xyz");
    assert_eq!(upper.uri, lower.uri);
    assert!(p.supports_caip_chainid("EIP155:1"));
    assert!(p.supports_caip_chainid("eip155:1"));
}

#[test]
fn status_429_is_throttled_whatever_the_body() {
    let p = infura("a");
    let r = p.inspect_proxy_response(response(429, b"{\"anything\":1}"));
    assert_eq!(r.unwrap_err(), RpcError::Throttled);
    let r = p.inspect_proxy_response(response(429, b""));
    assert_eq!(r.unwrap_err(), RpcError::Throttled);

    let b = binance("b");
    let r = b.inspect_proxy_response(response(429, b"ok"));
    assert_eq!(r.unwrap_err(), RpcError::Throttled);
}

#[test]
fn status_200_is_never_throttled_for_status_vendors() {
    let p = infura("a");
    let limit_body = b"{\"jsonrpc\":\"2.0\",\"error\":{\"code\":-32068,\"message\":\"m\"},\"id\":1}";
    let out = p.inspect_proxy_response(response(200, limit_body)).unwrap();
    assert_eq!(out.status, 200);
    assert_eq!(out.body, limit_body.to_vec());

    let b = binance("b");
    let out = b.inspect_proxy_response(response(200, limit_body)).unwrap();
    assert_eq!(out.status, 200);
}

#[test]
fn pokt_rate_limit_code_in_body_is_throttled() {
    let p = pokt("pid");
    let body = b"{\"jsonrpc\":\"2.0\",\"error\":{\"code\":-32068,\"message\":\"rate limited\"},\"id\":1}";
    let r = p.inspect_proxy_response(response(200, body));
    assert_eq!(r.unwrap_err(), RpcError::Throttled);
    assert!(is_rate_limited(body));
}

#[test]
fn pokt_other_error_code_is_forwarded_unchanged() {
    let p = pokt("pid");
    let body = b"{\"jsonrpc\":\"2.0\",\"error\":{\"code\":-32000,\"message\":\"oops\"},\"id\":1}";
    let out = p.inspect_proxy_response(response(200, body)).unwrap();
    assert_eq!(out.status, 200);
    assert_eq!(out.body, body.to_vec());
    assert_eq!(out.headers, vec![(String::from("X-Upstream"), String::from("yes"))]);
    assert!(!is_rate_limited(body));
}

#[test]
fn pokt_non_envelope_body_is_forwarded_unchanged() {
    let p = pokt("pid");
    for body in [&b"not json at all"[..], b"{\"foo\":1}", b""] {
        let out = p.inspect_proxy_response(response(200, body)).unwrap();
        assert_eq!(out.body, body.to_vec());
    }
    assert!(!is_rate_limited(b"not json at all"));
}

#[test]
fn pokt_success_envelope_is_forwarded() {
    let p = pokt("pid");
    let body = b"{\"jsonrpc\":\"2.0\",\"result\":\"0x1\",\"id\":1}";
    let out = p.inspect_proxy_response(response(200, body)).unwrap();
    assert_eq!(out.body, body.to_vec());
}

#[test]
fn rate_limit_code_recognition() {
    assert!(is_rate_limit_code(Some(-32068)));
    assert!(!is_rate_limit_code(Some(-32000)));
    assert!(!is_rate_limit_code(Some(32068)));
    assert!(!is_rate_limit_code(None));
}

#[test]
fn chain_support_queries_are_idempotent() {
    let p = pokt("pid");
    assert_eq!(
        p.supports_caip_chainid("eip155:137"),
        p.supports_caip_chainid("eip155:137")
    );
    assert_eq!(p.supported_caip_chainids(), p.supported_caip_chainids());
    assert_eq!(p.supported_caip_chainids(), vec![String::from("eip155:137")]);
}

#[test]
fn identity_accessors() {
    assert_eq!(infura("abc").provider_kind(), ProviderKind::Infura);
    assert_eq!(pokt("p").provider_kind(), ProviderKind::Pokt);
    assert_eq!(binance("b").provider_kind(), ProviderKind::Binance);
    assert_eq!(infura("abc").project_id(), "abc");
    assert_eq!(pokt("p").project_id(), &String::from("p"));
    assert_eq!(binance("b").project_id(), &String::from("b"));
}
