//! The records handed to callers: a scalar result, a block's transactions,
//! and a test verdict.

use vstd::prelude::*;
use crate::json::{Json, json_text, member, text_member, render_json, get_text_member, get_member};
use crate::response::Outcome;

verus! {

/// A transaction of a block. Each field holds the member of the same name
/// (camelCase on the wire) where the node sent it as a string, else the
/// empty text.
#[derive(Debug, Clone, PartialEq, Eq)]
pub struct Tx {
    pub hash: String,
    pub nonce: String,
    pub block_hash: String,
    pub block_number: String,
    pub transaction_index: String,
    pub from: String,
    pub to: String,
    pub value: String,
    pub gas_price: String,
    pub gas: String,
    pub input: String,
}

/// `tx` holds the fields of the transaction object `j`.
pub open spec fn tx_of(tx: Tx, j: Json) -> bool {
    &&& tx.hash@ == text_member(j, "hash"@)
    &&& tx.nonce@ == text_member(j, "nonce"@)
    &&& tx.block_hash@ == text_member(j, "blockHash"@)
    &&& tx.block_number@ == text_member(j, "blockNumber"@)
    &&& tx.transaction_index@ == text_member(j, "transactionIndex"@)
    &&& tx.from@ == text_member(j, "from"@)
    &&& tx.to@ == text_member(j, "to"@)
    &&& tx.value@ == text_member(j, "value"@)
    &&& tx.gas_price@ == text_member(j, "gasPrice"@)
    &&& tx.gas@ == text_member(j, "gas"@)
    &&& tx.input@ == text_member(j, "input"@)
}

impl Tx {
    /// The transaction that the object `j` describes; a member that is
    /// missing, null or not a string gives the empty text. Never fails.
    pub fn from_json(j: &Json) -> (r: Tx)
        ensures
            tx_of(r, *j),
    {
        Tx {
            hash: get_text_member(j, "hash"),
            nonce: get_text_member(j, "nonce"),
            block_hash: get_text_member(j, "blockHash"),
            block_number: get_text_member(j, "blockNumber"),
            transaction_index: get_text_member(j, "transactionIndex"),
            from: get_text_member(j, "from"),
            to: get_text_member(j, "to"),
            value: get_text_member(j, "value"),
            gas_price: get_text_member(j, "gasPrice"),
            gas: get_text_member(j, "gas"),
            input: get_text_member(j, "input"),
        }
    }
}

/// Exactly one of a record's result and error is non-empty.
pub open spec fn exclusive(result_empty: bool, error_empty: bool) -> bool {
    result_empty != error_empty
}

/// The answer to a call whose result is one value. On success `result`
/// holds it and `error` is empty; on a JSON-RPC error `error` holds the
/// whole response text and `result` is empty.
#[derive(Debug, Clone, PartialEq, Eq)]
pub struct JsonRpcResult {
    pub jsonrpc: String,
    pub result: String,
    pub error: String,
    pub id: u64,
}

/// The text of a scalar result: a string's own characters, any other value
/// as its JSON text.
pub open spec fn scalar_text(result: Json) -> Seq<char> {
    match result {
        Json::Str(s) => s@,
        _ => json_text(result),
    }
}

/// Whether an outcome gives a scalar record: the text that would fill it is
/// not empty.
pub open spec fn scalar_ok(o: Outcome) -> bool {
    match o {
        Outcome::Success { result, id } => scalar_text(result).len() > 0,
        Outcome::Failure { text, id } => text@.len() > 0,
    }
}

/// `rec` is the scalar record of the outcome `o`.
pub open spec fn scalar_record(rec: JsonRpcResult, o: Outcome) -> bool {
    &&& rec.jsonrpc@ == "2.0"@
    &&& match o {
        Outcome::Success { result, id } => {
            &&& rec.result@ == scalar_text(result)
            &&& rec.error@.len() == 0
            &&& rec.id == id
        },
        Outcome::Failure { text, id } => {
            &&& rec.result@.len() == 0
            &&& rec.error@ == text@
            &&& rec.id == id
        },
    }
}

impl JsonRpcResult {
    /// The record of an outcome; none where it would leave both the result
    /// and the error empty.
    pub fn from_res(raw_result: Outcome) -> (r: Option<JsonRpcResult>)
        ensures
            r is Some <==> scalar_ok(raw_result),
            r matches Some(rec) ==> scalar_record(rec, raw_result),
            r matches Some(rec) ==> exclusive(rec.result@.len() == 0, rec.error@.len() == 0),
    {
        let jsonrpc = String::from_str("2.0");
        match raw_result {
            Outcome::Success { result, id } => {
                let text = match result {
                    Json::Str(s) => s,
                    other => render_json(&other),
                };
                if text.unicode_len() == 0 {
                    return None;
                }
                Some(JsonRpcResult { jsonrpc, result: text, error: String::new(), id })
            },
            Outcome::Failure { text, id } => {
                if text.unicode_len() == 0 {
                    return None;
                }
                Some(JsonRpcResult { jsonrpc, result: String::new(), error: text, id })
            },
        }
    }
}

/// The transaction objects of a block result: none for a null result or a
/// block without a `transactions` member (or with a null one); nothing at
/// all where the result is not a block or the member is not an array.
pub open spec fn block_transactions(result: Json) -> Option<Seq<Json>> {
    match result {
        Json::Null => Some(Seq::empty()),
        Json::Object(_) => match member(result, "transactions"@) {
            None => Some(Seq::empty()),
            Some(Json::Null) => Some(Seq::empty()),
            Some(Json::Array(v)) => Some(v@),
            _ => None,
        },
        _ => None,
    }
}

/// The answer to a call for a block: its transactions on success; the whole
/// response text in `error` on a JSON-RPC error.
#[derive(Debug, Clone, PartialEq, Eq)]
pub struct JsonRpcTransactionResult {
    pub jsonrpc: String,
    pub transactions: Vec<Tx>,
    pub error: String,
    pub id: u64,
}

/// Whether an outcome gives a transaction record.
pub open spec fn transactions_ok(o: Outcome) -> bool {
    match o {
        Outcome::Success { result, id } => block_transactions(result) is Some,
        Outcome::Failure { text, id } => text@.len() > 0,
    }
}

/// `txs` converts `objs` one for one, in order.
pub open spec fn txs_of(txs: Seq<Tx>, objs: Seq<Json>) -> bool {
    &&& txs.len() == objs.len()
    &&& forall|i: int| 0 <= i < txs.len() ==> tx_of(#[trigger] txs[i], objs[i])
}

/// `rec` is the transaction record of the outcome `o`.
pub open spec fn transaction_record(rec: JsonRpcTransactionResult, o: Outcome) -> bool {
    &&& rec.jsonrpc@ == "2.0"@
    &&& match o {
        Outcome::Success { result, id } => {
            &&& txs_of(rec.transactions@, block_transactions(result)->Some_0)
            &&& rec.error@.len() == 0
            &&& rec.id == id
        },
        Outcome::Failure { text, id } => {
            &&& rec.transactions@.len() == 0
            &&& rec.error@ == text@
            &&& rec.id == id
        },
    }
}

/// The transactions that the objects `objs` describe, in order.
pub fn txs_from_json(objs: &Vec<Json>) -> (r: Vec<Tx>)
    ensures
        txs_of(r@, objs@),
{
    let mut txs: Vec<Tx> = Vec::new();
    let mut i: usize = 0;
    while i < objs.len()
        invariant
            0 <= i <= objs@.len(),
            txs@.len() == i,
            forall|k: int| 0 <= k < i ==> tx_of(#[trigger] txs@[k], objs@[k]),
        decreases objs@.len() - i,
    {
        let tx = Tx::from_json(&objs[i]);
        txs.push(tx);
        i = i + 1;
    }
    txs
}

impl JsonRpcTransactionResult {
    /// The record of an outcome; none where a successful result is not a
    /// block with an array of transactions, or an error text is empty.
    pub fn from_res(raw_result: Outcome) -> (r: Option<JsonRpcTransactionResult>)
        ensures
            r is Some <==> transactions_ok(raw_result),
            r matches Some(rec) ==> transaction_record(rec, raw_result),
    {
        let jsonrpc = String::from_str("2.0");
        match raw_result {
            Outcome::Success { result, id } => {
                let transactions = match &result {
                    Json::Null => Vec::new(),
                    Json::Object(_) => match get_member(&result, "transactions") {
                        None => Vec::new(),
                        Some(Json::Null) => Vec::new(),
                        Some(Json::Array(v)) => txs_from_json(v),
                        _ => return None,
                    },
                    _ => return None,
                };
                Some(JsonRpcTransactionResult { jsonrpc, transactions, error: String::new(), id })
            },
            Outcome::Failure { text, id } => {
                if text.unicode_len() == 0 {
                    return None;
                }
                Some(JsonRpcTransactionResult { jsonrpc, transactions: Vec::new(), error: text, id })
            },
        }
    }
}

/// The verdict of a check: whether it passed, and its message.
#[derive(Debug, Clone, PartialEq, Eq)]
pub struct TestResult {
    pub test_passed: bool,
    pub error: String,
}

impl From<Result<String, String>> for TestResult {
    fn from(result: Result<String, String>) -> (r: TestResult) {
        match result {
            Ok(res) => TestResult { test_passed: true, error: res },
            Err(err) => TestResult { test_passed: false, error: err },
        }
    }
}

impl vstd::std_specs::convert::FromSpecImpl<Result<String, String>> for TestResult {
    open spec fn obeys_from_spec() -> bool {
        true
    }

    open spec fn from_spec(result: Result<String, String>) -> TestResult {
        match result {
            Ok(res) => TestResult { test_passed: true, error: res },
            Err(err) => TestResult { test_passed: false, error: err },
        }
    }
}

} // verus!
