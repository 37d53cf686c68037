//! Reading a node's answer: telling a result from a JSON-RPC error, and
//! refusing an answer that is no JSON-RPC response at all.

use vstd::prelude::*;
use crate::json::{Json, json_parsed, member, u64_of_text, parse_json, find_member, u64_from_text};

verus! {

/// Why a call yields no record.
#[derive(Debug, Clone, PartialEq, Eq)]
pub enum RpcError {
    /// The transport failed; its description.
    Transport(String),
    /// The answer is no JSON-RPC response of the expected shape; the answer's text.
    MalformedResponse(String),
}

/// A JSON-RPC response that was read: the `result` member, or the whole
/// text of a response that carries an `error` member; with the response's id.
#[derive(Debug, PartialEq, Eq)]
pub enum Outcome {
    Success { result: Json, id: u64 },
    Failure { text: String, id: u64 },
}

/// The id of a response object, where it is an unsigned 64-bit number.
pub open spec fn response_id(j: Json) -> Option<u64> {
    match member(j, "id"@) {
        Some(Json::Number(t)) => u64_of_text(t@),
        _ => None,
    }
}

pub open spec fn has_error(j: Json) -> bool {
    member(j, "error"@) is Some
}

/// A response with an id that carries an error or a result.
pub open spec fn is_response(j: Json) -> bool {
    &&& response_id(j) is Some
    &&& (has_error(j) || member(j, "result"@) is Some)
}

/// `o` is what the answer `raw`, read as `j`, says.
pub open spec fn outcome_of(o: Outcome, raw: Seq<char>, j: Json) -> bool {
    match o {
        Outcome::Success { result, id } => {
            &&& !has_error(j)
            &&& member(j, "result"@) == Some(result)
            &&& response_id(j) == Some(id)
        },
        Outcome::Failure { text, id } => {
            &&& has_error(j)
            &&& text@ == raw
            &&& response_id(j) == Some(id)
        },
    }
}

/// The error for the answer `raw`.
pub open spec fn malformed(e: RpcError, raw: Seq<char>) -> bool {
    match e {
        RpcError::MalformedResponse(t) => t@ == raw,
        _ => false,
    }
}

/// Interprets the answer `raw`, given what it reads as.
pub fn interpret_parsed(raw: &String, parsed: Option<Json>) -> (r: Result<Outcome, RpcError>)
    ensures
        match r {
            Ok(o) => parsed matches Some(j) && is_response(j) && outcome_of(o, raw@, j),
            Err(e) => malformed(e, raw@) && !(parsed matches Some(j) && is_response(j)),
        },
{
    match parsed {
        Some(Json::Object(mut fields)) => {
            let id = match find_member(&fields, "id") {
                Some(k) => match &fields[k].1 {
                    Json::Number(t) => u64_from_text(t.as_str()),
                    _ => None,
                },
                None => None,
            };
            let id = match id {
                Some(i) => i,
                None => return Err(RpcError::MalformedResponse(raw.clone())),
            };
            if find_member(&fields, "error").is_some() {
                return Ok(Outcome::Failure { text: raw.clone(), id });
            }
            match find_member(&fields, "result") {
                Some(k) => {
                    let (_, result) = fields.remove(k);
                    Ok(Outcome::Success { result, id })
                },
                None => Err(RpcError::MalformedResponse(raw.clone())),
            }
        },
        _ => Err(RpcError::MalformedResponse(raw.clone())),
    }
}

/// Interprets the answer `raw` as serde_json reads it.
pub fn interpret(raw: &String) -> (r: Result<Outcome, RpcError>)
    ensures
        match r {
            Ok(o) => json_parsed(raw@) matches Some(j) && is_response(j) && outcome_of(o, raw@, j),
            Err(e) => malformed(e, raw@) && !(json_parsed(raw@) matches Some(j) && is_response(j)),
        },
        r is Ok ==> raw@.len() > 0,
        json_parsed(raw@) is None ==> (r matches Err(e) && malformed(e, raw@)),
{
    let parsed = parse_json(raw.as_str());
    interpret_parsed(raw, parsed)
}

} // verus!
