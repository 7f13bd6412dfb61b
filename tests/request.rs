use komodo_rpc::client::{Client, DEFAULT_PORT};
use komodo_rpc::dispatch::{step, Attempt, Step};
use komodo_rpc::request::{self, AddressList, JsonRpcVersion, Param};
use komodo_rpc::response::RpcResponse;
use komodo_rpc::text::decimal_string;

fn text_params(params: &[Param]) -> Vec<String> {
    params
        .iter()
        .map(|p| match p {
            Param::Text(s) => s.clone(),
            Param::Addresses(_) => panic!("not text"),
        })
        .collect()
}

#[test]
fn snapshot_count_is_decimal_text() {
    let r = request::get_snapshot_max(42);
    assert_eq!(r.method, "getsnapshot");
    assert_eq!(r.id, "777");
    assert_eq!(r.version, JsonRpcVersion::V1);
    assert_eq!(text_params(&r.params), vec!["42".to_string()]);
    let encoded = serde_json::to_string(&text_params(&r.params)).unwrap();
    assert_eq!(encoded, "[\"42\"]");
}

#[test]
fn parameterless_requests() {
    let r = request::get_info();
    assert_eq!(r.id, "curltest");
    assert_eq!(r.method, "getinfo");
    assert!(r.params.is_empty());
    for (r, m) in [
        (request::get_best_block_hash(), "getbestblockhash"),
        (request::get_new_address(), "getnewaddress"),
        (request::get_difficulty(), "getdifficulty"),
        (request::get_snapshot(), "getsnapshot"),
    ] {
        assert_eq!(r.id, "777");
        assert_eq!(r.method, m);
        assert!(r.params.is_empty());
    }
}

#[test]
fn single_text_parameter_requests() {
    let r = request::get_transaction("abcd");
    assert_eq!(r.method, "gettransaction");
    assert_eq!(text_params(&r.params), vec!["abcd".to_string()]);
    let r = request::dump_privkey("RAddr");
    assert_eq!(r.method, "dumpprivkey");
    assert_eq!(text_params(&r.params), vec!["RAddr".to_string()]);
}

#[test]
fn address_requests_carry_the_addresses() {
    let a = AddressList { addresses: vec!["R1".to_string(), "R2".to_string()] };
    for (r, m) in [
        (request::get_address_balance(&a), "getaddressbalance"),
        (request::get_address_deltas(&a), "getaddressdeltas"),
        (request::get_address_mempool(&a), "getaddressmempool"),
        (request::get_address_tx_ids(&a), "getaddresstxids"),
        (request::get_address_utxos(&a), "getaddressutxos"),
    ] {
        assert_eq!(r.method, m);
        assert_eq!(r.params.len(), 1);
        match &r.params[0] {
            Param::Addresses(l) => assert_eq!(l.addresses, a.addresses),
            Param::Text(_) => panic!("not addresses"),
        }
    }
}

#[test]
fn echoed_parameters_come_back_unchanged() {
    let r = request::get_snapshot_max(1234);
    let sent = text_params(&r.params);
    let body = serde_json::to_string(&sent).unwrap();
    let echoed: Vec<String> = serde_json::from_str(&body).unwrap();
    let resp = RpcResponse { id: r.id.clone(), result: Some(echoed), error: None };
    assert_eq!(resp.id(), "777");
    match step(Attempt::First, Ok(resp)) {
        Step::Finish(Ok(Ok(v))) => assert_eq!(v, sent),
        other => panic!("unexpected {:?}", other),
    }
}

#[test]
fn decimal_forms() {
    assert_eq!(decimal_string(0), "0");
    assert_eq!(decimal_string(7), "7");
    assert_eq!(decimal_string(42), "42");
    assert_eq!(decimal_string(65535), "65535");
    assert_eq!(decimal_string(u32::MAX), "4294967295");
}

#[test]
fn default_client_endpoint_and_header() {
    let c = Client::new("user", "pass");
    assert_eq!(c.port(), DEFAULT_PORT);
    assert_eq!(DEFAULT_PORT, 7771);
    assert_eq!(c.url(), "http://127.0.0.1:7771");
    assert_eq!(c.authorization(), "Basic dXNlcjpwYXNz");
}
