//! One request per Ethereum RPC method, and the reading of the node's answer
//! into a record. The transport between the two is the caller's.

use vstd::prelude::*;
use crate::json::{Json, json_parsed, member, digit_char};
use crate::nonce::{NonceGenerator, draw_step};
use crate::request::{Request, HttpCall, is_call, is_text};
use crate::response::{RpcError, interpret, is_response, has_error, response_id, malformed};
use crate::results::{
    JsonRpcResult, JsonRpcTransactionResult, scalar_text, exclusive, block_transactions, txs_of,
};

verus! {

/// The parameters of a message call. Absent ones are sent as null.
#[derive(Debug, Clone, PartialEq, Eq)]
pub struct TxCall {
    pub from: Option<String>,
    pub to: String,
    pub gas: Option<String>,
    pub gas_price: Option<String>,
    pub value: Option<String>,
    pub data: Option<String>,
}

pub open spec fn is_opt_text(j: Json, t: Option<String>) -> bool {
    match t {
        Some(s) => is_text(j, s@),
        None => j is Null,
    }
}

/// `j` is the object of the call `tx`: from, to, gas, gasPrice, value and
/// data, in that order.
pub open spec fn is_tx_call_json(j: Json, tx: TxCall) -> bool {
    match j {
        Json::Object(f) => {
            &&& f@.len() == 6
            &&& f@[0].0@ == "from"@ && is_opt_text(f@[0].1, tx.from)
            &&& f@[1].0@ == "to"@ && is_text(f@[1].1, tx.to@)
            &&& f@[2].0@ == "gas"@ && is_opt_text(f@[2].1, tx.gas)
            &&& f@[3].0@ == "gasPrice"@ && is_opt_text(f@[3].1, tx.gas_price)
            &&& f@[4].0@ == "value"@ && is_opt_text(f@[4].1, tx.value)
            &&& f@[5].0@ == "data"@ && is_opt_text(f@[5].1, tx.data)
        },
        _ => false,
    }
}

fn opt_text_json(t: Option<String>) -> (r: Json)
    ensures
        is_opt_text(r, t),
{
    match t {
        Some(s) => Json::Str(s),
        None => Json::Null,
    }
}

impl TxCall {
    /// The call as a JSON object.
    pub fn into_json(self) -> (j: Json)
        ensures
            is_tx_call_json(j, self),
    {
        let mut f: Vec<(String, Json)> = Vec::new();
        f.push((String::from_str("from"), opt_text_json(self.from)));
        f.push((String::from_str("to"), Json::Str(self.to)));
        f.push((String::from_str("gas"), opt_text_json(self.gas)));
        f.push((String::from_str("gasPrice"), opt_text_json(self.gas_price)));
        f.push((String::from_str("value"), opt_text_json(self.value)));
        f.push((String::from_str("data"), opt_text_json(self.data)));
        Json::Object(f)
    }
}

pub open spec fn hex_digit(n: nat) -> char {
    if n < 10 { digit_char(n) } else if n == 10 { 'a' } else if n == 11 { 'b' } else if n == 12 { 'c' }
    else if n == 13 { 'd' } else if n == 14 { 'e' } else { 'f' }
}

/// Two lowercase hex digits per byte, high nibble first.
pub open spec fn hex_of(bytes: Seq<u8>) -> Seq<char>
    decreases bytes.len(),
{
    if bytes.len() == 0 {
        Seq::empty()
    } else {
        hex_of(bytes.drop_last()) + seq![hex_digit(bytes.last() as nat / 16), hex_digit(bytes.last() as nat % 16)]
    }
}

/// Relies on the serde serialization of ethereum_types::H256 (impl-serde's
/// serialize_raw): "0x" and two lowercase hex digits for each of the 32 bytes.
#[verifier::external_body]
fn h256_text(bytes: &[u8; 32]) -> (r: String)
    ensures
        r@ == seq!['0', 'x'] + hex_of(bytes@),
{
    match serde_json::to_value(ethereum_types::H256::from(*bytes)) {
        Ok(serde_json::Value::String(s)) => s,
        _ => String::new(),
    }
}

/// The params of a request object.
pub open spec fn params_of(j: Json) -> Seq<Json> {
    match j {
        Json::Object(f) => match f@[2].1 {
            Json::Array(v) => v@,
            _ => Seq::empty(),
        },
        _ => Seq::empty(),
    }
}

/// `r` carries a request for `method`, with a fresh id from `before`, to `url`.
pub open spec fn is_fresh_call(r: HttpCall, url: Seq<char>, method: Seq<char>, before: u64, after: u64) -> bool {
    &&& draw_step(before, before, after)
    &&& is_call(r, url, method, params_of(r.request), before)
}

fn call(nonces: &mut NonceGenerator, url: &String, method: &str, params: Vec<Json>) -> (r: HttpCall)
    requires
        old(nonces)@ < u64::MAX,
    ensures
        is_fresh_call(r, url@, method@, old(nonces)@, final(nonces)@),
        params_of(r.request) == params@,
{
    let id = nonces.next();
    Request::new(String::from_str(method), params, id).as_sys_string(url)
}

/// `eth_call`: the call `tx` evaluated at the block `tag`.
pub fn eth_call(nonces: &mut NonceGenerator, url: &String, tx: TxCall, tag: String) -> (r: HttpCall)
    requires
        old(nonces)@ < u64::MAX,
    ensures
        is_fresh_call(r, url@, "eth_call"@, old(nonces)@, final(nonces)@),
        params_of(r.request).len() == 2,
        is_tx_call_json(params_of(r.request)[0], tx),
        is_text(params_of(r.request)[1], tag@),
{
    let mut params: Vec<Json> = Vec::new();
    params.push(tx.into_json());
    params.push(Json::Str(tag));
    call(nonces, url, "eth_call", params)
}

/// `eth_getTransactionReceipt` for the transaction with hash `trans_hash`.
pub fn eth_get_transaction_receipt(nonces: &mut NonceGenerator, url: &String, trans_hash: &[u8; 32]) -> (r: HttpCall)
    requires
        old(nonces)@ < u64::MAX,
    ensures
        is_fresh_call(r, url@, "eth_getTransactionReceipt"@, old(nonces)@, final(nonces)@),
        params_of(r.request).len() == 1,
        is_text(params_of(r.request)[0], seq!['0', 'x'] + hex_of(trans_hash@)),
{
    let mut params: Vec<Json> = Vec::new();
    params.push(Json::Str(h256_text(trans_hash)));
    call(nonces, url, "eth_getTransactionReceipt", params)
}

/// `eth_blockNumber`, without params.
pub fn eth_get_latest_block_number(nonces: &mut NonceGenerator, url: &String) -> (r: HttpCall)
    requires
        old(nonces)@ < u64::MAX,
    ensures
        is_fresh_call(r, url@, "eth_blockNumber"@, old(nonces)@, final(nonces)@),
        params_of(r.request).len() == 0,
{
    call(nonces, url, "eth_blockNumber", Vec::new())
}

/// `eth_getBlockByNumber` for the block `block_in_hex`, asking for whole
/// transaction objects.
pub fn eth_get_block_by_number(nonces: &mut NonceGenerator, url: &String, block_in_hex: String) -> (r: HttpCall)
    requires
        old(nonces)@ < u64::MAX,
    ensures
        is_fresh_call(r, url@, "eth_getBlockByNumber"@, old(nonces)@, final(nonces)@),
        params_of(r.request).len() == 2,
        is_text(params_of(r.request)[0], block_in_hex@),
        params_of(r.request)[1] == Json::Bool(true),
{
    let mut params: Vec<Json> = Vec::new();
    params.push(Json::Str(block_in_hex));
    params.push(Json::Bool(true));
    call(nonces, url, "eth_getBlockByNumber", params)
}

/// `eth_sendRawTransaction` for the signed transaction `signed_tx`.
pub fn eth_send_raw_transaction(nonces: &mut NonceGenerator, url: &String, signed_tx: String) -> (r: HttpCall)
    requires
        old(nonces)@ < u64::MAX,
    ensures
        is_fresh_call(r, url@, "eth_sendRawTransaction"@, old(nonces)@, final(nonces)@),
        params_of(r.request).len() == 1,
        is_text(params_of(r.request)[0], signed_tx@),
{
    let mut params: Vec<Json> = Vec::new();
    params.push(Json::Str(signed_tx));
    call(nonces, url, "eth_sendRawTransaction", params)
}

/// `eth_getBalance` of the address `add` at the latest block.
pub fn eth_get_balance(nonces: &mut NonceGenerator, url: &String, add: String) -> (r: HttpCall)
    requires
        old(nonces)@ < u64::MAX,
    ensures
        is_fresh_call(r, url@, "eth_getBalance"@, old(nonces)@, final(nonces)@),
        params_of(r.request).len() == 2,
        is_text(params_of(r.request)[0], add@),
        is_text(params_of(r.request)[1], "latest"@),
{
    let mut params: Vec<Json> = Vec::new();
    params.push(Json::Str(add));
    params.push(Json::Str(String::from_str("latest")));
    call(nonces, url, "eth_getBalance", params)
}


/// The result member of a response object.
pub open spec fn result_member(j: Json) -> Json {
    member(j, "result"@)->Some_0
}

/// Whether the answer `raw`, read as `j`, gives a scalar record.
pub open spec fn scalar_answer_ok(j: Json) -> bool {
    &&& is_response(j)
    &&& (has_error(j) || scalar_text(result_member(j)).len() > 0)
}

/// `rec` is the scalar record of the answer `raw`, read as `j`.
pub open spec fn scalar_answer(rec: JsonRpcResult, raw: Seq<char>, j: Json) -> bool {
    &&& rec.jsonrpc@ == "2.0"@
    &&& rec.id == response_id(j)->Some_0
    &&& if has_error(j) {
        rec.result@.len() == 0 && rec.error@ == raw
    } else {
        rec.result@ == scalar_text(result_member(j)) && rec.error@.len() == 0
    }
}

/// Whether the answer read as `j` gives a transaction record.
pub open spec fn transaction_answer_ok(j: Json) -> bool {
    &&& is_response(j)
    &&& (has_error(j) || block_transactions(result_member(j)) is Some)
}

/// `rec` is the transaction record of the answer `raw`, read as `j`.
pub open spec fn transaction_answer(rec: JsonRpcTransactionResult, raw: Seq<char>, j: Json) -> bool {
    &&& rec.jsonrpc@ == "2.0"@
    &&& rec.id == response_id(j)->Some_0
    &&& if has_error(j) {
        rec.transactions@.len() == 0 && rec.error@ == raw
    } else {
        txs_of(rec.transactions@, block_transactions(result_member(j))->Some_0) && rec.error@.len() == 0
    }
}

pub open spec fn transport_failed(e: RpcError, description: Seq<char>) -> bool {
    match e {
        RpcError::Transport(t) => t@ == description,
        _ => false,
    }
}

/// The scalar record of the transport's answer: the node's result, or its
/// JSON-RPC error; an error where the transport failed or the answer is not
/// a response of that kind.
pub fn scalar_response(answer: Result<String, String>) -> (r: Result<JsonRpcResult, RpcError>)
    ensures
        match answer {
            Err(e) => r matches Err(f) && transport_failed(f, e@),
            Ok(raw) => match r {
                Ok(rec) => {
                    &&& json_parsed(raw@) matches Some(j)
                    &&& scalar_answer_ok(j)
                    &&& scalar_answer(rec, raw@, j)
                    &&& exclusive(rec.result@.len() == 0, rec.error@.len() == 0)
                },
                Err(e) => malformed(e, raw@) && !(json_parsed(raw@) matches Some(j) && scalar_answer_ok(j)),
            },
        },
        answer matches Ok(raw) ==> (json_parsed(raw@) is None ==> (r matches Err(e) && malformed(e, raw@))),
{
    match answer {
        Err(e) => Err(RpcError::Transport(e)),
        Ok(raw) => match interpret(&raw) {
            Err(e) => Err(e),
            Ok(o) => {
                match JsonRpcResult::from_res(o) {
                    Some(rec) => Ok(rec),
                    None => Err(RpcError::MalformedResponse(raw)),
                }
            },
        },
    }
}

/// The transaction record of the transport's answer: the block's
/// transactions, in order, or the node's JSON-RPC error; an error where the
/// transport failed or the answer is not a response of that kind.
pub fn transaction_response(answer: Result<String, String>) -> (r: Result<JsonRpcTransactionResult, RpcError>)
    ensures
        match answer {
            Err(e) => r matches Err(f) && transport_failed(f, e@),
            Ok(raw) => match r {
                Ok(rec) => {
                    &&& json_parsed(raw@) matches Some(j)
                    &&& transaction_answer_ok(j)
                    &&& transaction_answer(rec, raw@, j)
                },
                Err(e) => malformed(e, raw@) && !(json_parsed(raw@) matches Some(j) && transaction_answer_ok(j)),
            },
        },
        answer matches Ok(raw) ==> (json_parsed(raw@) is None ==> (r matches Err(e) && malformed(e, raw@))),
{
    match answer {
        Err(e) => Err(RpcError::Transport(e)),
        Ok(raw) => match interpret(&raw) {
            Err(e) => Err(e),
            Ok(o) => {
                match JsonRpcTransactionResult::from_res(o) {
                    Some(rec) => Ok(rec),
                    None => Err(RpcError::MalformedResponse(raw)),
                }
            },
        },
    }
}

} // verus!
