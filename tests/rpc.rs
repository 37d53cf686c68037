use eth_rpc_client::calls::{
    eth_call, eth_get_balance, eth_get_block_by_number, eth_get_latest_block_number,
    eth_get_transaction_receipt, eth_send_raw_transaction, scalar_response, transaction_response,
    TxCall,
};
use eth_rpc_client::json::{decimal_text, parse_json, render_json, u64_from_text, Json};
use eth_rpc_client::nonce::NonceGenerator;
use eth_rpc_client::request::{HttpCall, Request};
use eth_rpc_client::response::{interpret, Outcome, RpcError};
use eth_rpc_client::results::{JsonRpcResult, JsonRpcTransactionResult, TestResult, Tx};

fn text(s: &str) -> Json {
    Json::Str(s.to_string())
}

fn params(call: &HttpCall) -> &Vec<Json> {
    match &call.request {
        Json::Object(f) => match &f[2].1 {
            Json::Array(p) => p,
            _ => panic!("params is not an array"),
        },
        _ => panic!("request is not an object"),
    }
}

#[test]
fn nonce_ids_strictly_increase() {
    let mut g = NonceGenerator::new(1000);
    let mut last: Option<u64> = None;
    for _ in 0..50 {
        let id = g.next();
        if let Some(prev) = last {
            assert!(id > prev);
        }
        last = Some(id);
    }
    assert_eq!(last, Some(1049));
    assert_eq!(g.upcoming(), 1050);
}

#[test]
fn nonce_stops_at_the_largest_id() {
    let mut g = NonceGenerator::new(u64::MAX - 1);
    assert!(g.can_draw());
    assert_eq!(g.next(), u64::MAX - 1);
    assert!(!g.can_draw());
}

#[test]
fn request_round_trip() {
    let req = Request::new(
        "eth_getBalance".to_string(),
        vec![text("0xabc"), text("latest"), Json::Bool(true), Json::Null],
        42,
    );
    let call = req.as_sys_string(&"http://localhost:8545".to_string());
    let back = Request::from_text(&call.body).expect("request reads back");
    assert_eq!(back.method, "eth_getBalance");
    assert_eq!(back.id, 42);
    assert_eq!(
        back.params,
        vec![text("0xabc"), text("latest"), Json::Bool(true), Json::Null]
    );
}

#[test]
fn request_body_is_json_rpc() {
    let req = Request::new("eth_blockNumber".to_string(), vec![], 7);
    let call = req.as_sys_string(&"http://node".to_string());
    assert_eq!(call.url, "http://node");
    assert_eq!(call.content_type, "application/json");
    assert_eq!(call.body, r#"{"id":7,"jsonrpc":"2.0","method":"eth_blockNumber","params":[]}"#);
}

#[test]
fn request_from_text_refuses_other_versions() {
    assert!(Request::from_text(r#"{"jsonrpc":"1.0","method":"m","params":[],"id":1}"#).is_none());
    assert!(Request::from_text(r#"{"jsonrpc":"2.0","method":"m","params":{},"id":1}"#).is_none());
    assert!(Request::from_text(r#"{"jsonrpc":"2.0","method":"m","params":[],"id":-1}"#).is_none());
    assert!(Request::from_text("not json").is_none());
}

#[test]
fn latest_block_number_result() {
    let mut g = NonceGenerator::new(7);
    let call = eth_get_latest_block_number(&mut g, &"http://node".to_string());
    assert!(params(&call).is_empty());
    let back = Request::from_text(&call.body).unwrap();
    assert_eq!(back.method, "eth_blockNumber");
    assert_eq!(back.id, 7);
    let rec = scalar_response(Ok(r#"{"jsonrpc":"2.0","result":"0x10","id":7}"#.to_string())).unwrap();
    assert_eq!(rec.result, "0x10");
    assert_eq!(rec.error, "");
    assert_eq!(rec.id, 7);
    assert_eq!(rec.jsonrpc, "2.0");
}

#[test]
fn domain_error_goes_to_error_field() {
    let raw = r#"{"jsonrpc":"2.0","error":{"code":-32000,"message":"not found"},"id":7}"#;
    let rec = scalar_response(Ok(raw.to_string())).unwrap();
    assert_eq!(rec.result, "");
    assert_eq!(rec.error, raw);
    assert!(rec.error.contains("not found"));
    assert_eq!(rec.id, 7);
    let txs = transaction_response(Ok(raw.to_string())).unwrap();
    assert!(txs.transactions.is_empty());
    assert_eq!(txs.error, raw);
    assert_eq!(txs.id, 7);
}

#[test]
fn block_with_two_transactions() {
    let raw = r#"{"jsonrpc":"2.0","id":3,"result":{"number":"0x1b4","transactions":[
        {"hash":"0xaa","from":"0x01","to":"0x02","value":"0x10","gas":"0x5208","gasPrice":"0x1","nonce":"0x0","blockHash":"0xbb","blockNumber":"0x1b4","transactionIndex":"0x0","input":"0x"},
        {"hash":"0xcc","from":"0x03","to":null,"value":"0x0","gas":"0x1","input":"0x60"}]}}"#;
    let rec = transaction_response(Ok(raw.to_string())).unwrap();
    assert_eq!(rec.error, "");
    assert_eq!(rec.id, 3);
    assert_eq!(rec.transactions.len(), 2);
    let first = &rec.transactions[0];
    assert_eq!(first.hash, "0xaa");
    assert_eq!(first.from, "0x01");
    assert_eq!(first.to, "0x02");
    assert_eq!(first.value, "0x10");
    assert_eq!(first.gas, "0x5208");
    assert_eq!(first.gas_price, "0x1");
    assert_eq!(first.nonce, "0x0");
    assert_eq!(first.block_hash, "0xbb");
    assert_eq!(first.block_number, "0x1b4");
    assert_eq!(first.transaction_index, "0x0");
    assert_eq!(first.input, "0x");
    let second = &rec.transactions[1];
    assert_eq!(second.hash, "0xcc");
    assert_eq!(second.to, "");
    assert_eq!(second.gas_price, "");
    assert_eq!(second.block_hash, "");
    assert_eq!(second.input, "0x60");
}

#[test]
fn block_without_transactions_is_empty_success() {
    let raw = r#"{"jsonrpc":"2.0","id":4,"result":{"number":"0x1"}}"#;
    let rec = transaction_response(Ok(raw.to_string())).unwrap();
    assert!(rec.transactions.is_empty());
    assert_eq!(rec.error, "");
    assert_eq!(rec.id, 4);
    let missing = transaction_response(Ok(r#"{"jsonrpc":"2.0","id":5,"result":null}"#.to_string())).unwrap();
    assert!(missing.transactions.is_empty());
    assert_eq!(missing.id, 5);
}

#[test]
fn block_result_of_wrong_shape_is_malformed() {
    let raw = r#"{"jsonrpc":"2.0","id":4,"result":"0x1"}"#;
    assert_eq!(
        transaction_response(Ok(raw.to_string())),
        Err(RpcError::MalformedResponse(raw.to_string()))
    );
    let raw = r#"{"jsonrpc":"2.0","id":4,"result":{"transactions":"none"}}"#;
    assert_eq!(
        transaction_response(Ok(raw.to_string())),
        Err(RpcError::MalformedResponse(raw.to_string()))
    );
}

#[test]
fn truncated_json_is_malformed() {
    for raw in [r#"{"jsonrpc":"2.0","result":"0x1"#, "", "garbage", r#"{"jsonrpc":"2.0","id":1}"#] {
        let r = scalar_response(Ok(raw.to_string()));
        assert_eq!(r, Err(RpcError::MalformedResponse(raw.to_string())));
        let t = transaction_response(Ok(raw.to_string()));
        assert_eq!(t, Err(RpcError::MalformedResponse(raw.to_string())));
        assert!(matches!(interpret(&raw.to_string()), Err(RpcError::MalformedResponse(_))));
    }
}

#[test]
fn missing_or_bad_id_is_malformed() {
    for raw in [
        r#"{"jsonrpc":"2.0","result":"0x1"}"#,
        r#"{"jsonrpc":"2.0","result":"0x1","id":"7"}"#,
        r#"{"jsonrpc":"2.0","result":"0x1","id":7.5}"#,
        r#"{"jsonrpc":"2.0","result":"0x1","id":-7}"#,
        r#"["not","an","object"]"#,
    ] {
        assert_eq!(
            scalar_response(Ok(raw.to_string())),
            Err(RpcError::MalformedResponse(raw.to_string()))
        );
    }
}

#[test]
fn empty_string_result_is_malformed() {
    let raw = r#"{"jsonrpc":"2.0","result":"","id":1}"#;
    assert_eq!(
        scalar_response(Ok(raw.to_string())),
        Err(RpcError::MalformedResponse(raw.to_string()))
    );
}

#[test]
fn transport_failure_is_distinct() {
    assert_eq!(
        scalar_response(Err("connection refused".to_string())),
        Err(RpcError::Transport("connection refused".to_string()))
    );
    assert_eq!(
        transaction_response(Err("timeout".to_string())),
        Err(RpcError::Transport("timeout".to_string()))
    );
}

#[test]
fn non_string_result_keeps_its_json_text() {
    let raw = r#"{"jsonrpc":"2.0","result":{"status":"0x1"},"id":9}"#;
    let rec = scalar_response(Ok(raw.to_string())).unwrap();
    assert_eq!(rec.result, r#"{"status":"0x1"}"#);
    let rec = scalar_response(Ok(r#"{"jsonrpc":"2.0","result":null,"id":9}"#.to_string())).unwrap();
    assert_eq!(rec.result, "null");
    assert_eq!(rec.error, "");
    let rec = scalar_response(Ok(r#"{"jsonrpc":"2.0","result":16,"id":9}"#.to_string())).unwrap();
    assert_eq!(rec.result, "16");
}

#[test]
fn interpret_tells_success_from_failure() {
    let ok = interpret(&r#"{"jsonrpc":"2.0","result":[1,2],"id":11}"#.to_string()).unwrap();
    match ok {
        Outcome::Success { result, id } => {
            assert_eq!(id, 11);
            assert_eq!(result, Json::Array(vec![Json::Number("1".to_string()), Json::Number("2".to_string())]));
        }
        _ => panic!("expected success"),
    }
    let raw = r#"{"jsonrpc":"2.0","error":{"code":1},"result":"0x1","id":12}"#;
    let bad = interpret(&raw.to_string()).unwrap();
    assert_eq!(bad, Outcome::Failure { text: raw.to_string(), id: 12 });
}

#[test]
fn balance_asks_for_latest() {
    let mut g = NonceGenerator::new(1);
    for add in ["0x1234", "", "latest"] {
        let call = eth_get_balance(&mut g, &"http://n".to_string(), add.to_string());
        let p = params(&call);
        assert_eq!(p.len(), 2);
        assert_eq!(p[0], text(add));
        assert_eq!(p[1], text("latest"));
        assert!(call.body.contains(r#""method":"eth_getBalance""#));
    }
    assert_eq!(g.upcoming(), 4);
}

#[test]
fn block_by_number_asks_for_whole_transactions() {
    let mut g = NonceGenerator::new(20);
    let call = eth_get_block_by_number(&mut g, &"u".to_string(), "0x1b4".to_string());
    assert_eq!(params(&call), &vec![text("0x1b4"), Json::Bool(true)]);
    let back = Request::from_text(&call.body).unwrap();
    assert_eq!(back.method, "eth_getBlockByNumber");
    assert_eq!(back.id, 20);
}

#[test]
fn send_raw_transaction_params() {
    let mut g = NonceGenerator::new(5);
    let call = eth_send_raw_transaction(&mut g, &"u".to_string(), "0xf86c".to_string());
    assert_eq!(params(&call), &vec![text("0xf86c")]);
    assert!(call.body.contains(r#""method":"eth_sendRawTransaction""#));
}

#[test]
fn call_params_hold_the_call_and_tag() {
    let mut g = NonceGenerator::new(5);
    let tx = TxCall {
        from: Some("0x01".to_string()),
        to: "0x02".to_string(),
        gas: None,
        gas_price: None,
        value: Some("0x10".to_string()),
        data: Some("0xabcd".to_string()),
    };
    let call = eth_call(&mut g, &"u".to_string(), tx, "latest".to_string());
    let p = params(&call);
    assert_eq!(p.len(), 2);
    assert_eq!(
        p[0],
        Json::Object(vec![
            ("from".to_string(), text("0x01")),
            ("to".to_string(), text("0x02")),
            ("gas".to_string(), Json::Null),
            ("gasPrice".to_string(), Json::Null),
            ("value".to_string(), text("0x10")),
            ("data".to_string(), text("0xabcd")),
        ])
    );
    assert_eq!(p[1], text("latest"));
}

#[test]
fn receipt_hash_is_hex_text() {
    let mut g = NonceGenerator::new(5);
    let mut hash = [0u8; 32];
    hash[0] = 0x01;
    hash[1] = 0xab;
    hash[31] = 0xff;
    let call = eth_get_transaction_receipt(&mut g, &"u".to_string(), &hash);
    let expected = format!("0x01ab{}ff", "00".repeat(29));
    assert_eq!(params(&call), &vec![Json::Str(expected)]);
}

#[test]
fn scalar_record_from_outcome() {
    let rec = JsonRpcResult::from_res(Outcome::Success { result: text("0x2a"), id: 1 }).unwrap();
    assert_eq!(rec.result, "0x2a");
    assert_eq!(rec.error, "");
    let rec = JsonRpcResult::from_res(Outcome::Failure { text: "{}".to_string(), id: 2 }).unwrap();
    assert_eq!(rec.result, "");
    assert_eq!(rec.error, "{}");
    assert!(JsonRpcResult::from_res(Outcome::Failure { text: String::new(), id: 2 }).is_none());
}

#[test]
fn transaction_record_from_outcome() {
    let block = Json::Object(vec![(
        "transactions".to_string(),
        Json::Array(vec![Json::Object(vec![("hash".to_string(), text("0x1"))]), text("0x2")]),
    )]);
    let rec = JsonRpcTransactionResult::from_res(Outcome::Success { result: block, id: 1 }).unwrap();
    assert_eq!(rec.transactions.len(), 2);
    assert_eq!(rec.transactions[0].hash, "0x1");
    assert_eq!(rec.transactions[1].hash, "");
    let tx = Tx::from_json(&Json::Null);
    assert_eq!(tx.hash, "");
}

#[test]
fn test_result_from_result() {
    let ok = TestResult::from(Ok::<String, String>("fine".to_string()));
    assert!(ok.test_passed);
    assert_eq!(ok.error, "fine");
    let bad = TestResult::from(Err::<String, String>("broken".to_string()));
    assert!(!bad.test_passed);
    assert_eq!(bad.error, "broken");
}

#[test]
fn decimal_text_and_back() {
    assert_eq!(decimal_text(0), "0");
    assert_eq!(decimal_text(1234567890), "1234567890");
    assert_eq!(u64_from_text("18446744073709551615"), Some(u64::MAX));
    assert_eq!(u64_from_text("18446744073709551616"), None);
    assert_eq!(u64_from_text("7.0"), None);
    assert_eq!(u64_from_text(""), None);
    assert_eq!(u64_from_text("042"), Some(42));
}

#[test]
fn parse_and_render_json() {
    let j = parse_json(r#"{"a":[true,null,"x",1.5]}"#).unwrap();
    assert_eq!(
        j,
        Json::Object(vec![(
            "a".to_string(),
            Json::Array(vec![Json::Bool(true), Json::Null, text("x"), Json::Number("1.5".to_string())])
        )])
    );
    assert_eq!(render_json(&j), r#"{"a":[true,null,"x",1.5]}"#);
    assert!(parse_json("").is_none());
    assert!(parse_json("{").is_none());
}
