//! JSON-RPC 2.0 requests: building them, printing them for the transport,
//! and reading them back.

use vstd::prelude::*;
use crate::json::{
    Json, json_parsed, json_text, member, is_decimal, decimal, decimal_value, digit_char,
    u64_of_text, parse_json, render_json, decimal_text, same_text, find_member, u64_from_text,
    is_digit,
};

verus! {

/// A JSON-RPC request: the method to call, its positional parameters, and
/// the id that ties the answer to it.
#[derive(Debug, PartialEq, Eq)]
pub struct Request {
    pub method: String,
    pub params: Vec<Json>,
    pub id: u64,
}

/// What the transport is handed: the endpoint, the content type of the body,
/// the request as a JSON value, and its text.
#[derive(Debug, PartialEq, Eq)]
pub struct HttpCall {
    pub url: String,
    pub content_type: String,
    pub request: Json,
    pub body: String,
}

pub open spec fn is_text(j: Json, t: Seq<char>) -> bool {
    match j {
        Json::Str(s) => s@ == t,
        _ => false,
    }
}

pub open spec fn is_array(j: Json, items: Seq<Json>) -> bool {
    match j {
        Json::Array(v) => v@ == items,
        _ => false,
    }
}

pub open spec fn is_number(j: Json, t: Seq<char>) -> bool {
    match j {
        Json::Number(s) => s@ == t,
        _ => false,
    }
}

/// `j` is the request object with members jsonrpc "2.0", method, params and
/// id, in that order.
pub open spec fn is_request_json(j: Json, method: Seq<char>, params: Seq<Json>, id: u64) -> bool {
    match j {
        Json::Object(f) => {
            &&& f@.len() == 4
            &&& f@[0].0@ == "jsonrpc"@ && is_text(f@[0].1, "2.0"@)
            &&& f@[1].0@ == "method"@ && is_text(f@[1].1, method)
            &&& f@[2].0@ == "params"@ && is_array(f@[2].1, params)
            &&& f@[3].0@ == "id"@ && is_number(f@[3].1, decimal(id as nat))
        },
        _ => false,
    }
}

/// The method, params and id that a request object carries, where it is one.
pub open spec fn request_fields(j: Json) -> Option<(Seq<char>, Seq<Json>, u64)> {
    match (member(j, "jsonrpc"@), member(j, "method"@), member(j, "params"@), member(j, "id"@)) {
        (Some(Json::Str(v)), Some(Json::Str(m)), Some(Json::Array(p)), Some(Json::Number(t))) => {
            if v@ == "2.0"@ && u64_of_text(t@) is Some {
                Some((m@, p@, u64_of_text(t@)->Some_0))
            } else {
                None
            }
        },
        _ => None,
    }
}

/// `call` carries the request for `method` with `params` and `id` to `url`.
pub open spec fn is_call(call: HttpCall, url: Seq<char>, method: Seq<char>, params: Seq<Json>, id: u64) -> bool {
    &&& call.url@ == url
    &&& call.content_type@ == "application/json"@
    &&& is_request_json(call.request, method, params, id)
    &&& call.body@ == json_text(call.request)
}

proof fn lemma_decimal_reads_back(n: nat)
    ensures
        is_decimal(decimal(n)),
        decimal_value(decimal(n)) == n,
    decreases n,
{
    reveal_with_fuel(decimal, 2);
    let s = decimal(n);
    let d = n % 10;
    assert(digit_char(d) as u32 - '0' as u32 == d);
    if n < 10 {
        assert(s.drop_last() =~= Seq::<char>::empty());
        reveal_with_fuel(decimal_value, 2);
    } else {
        lemma_decimal_reads_back(n / 10);
        assert(s.drop_last() =~= decimal(n / 10));
        assert(forall|i: int| 0 <= i < s.len() ==> is_digit(#[trigger] s[i]));
        assert(n == (n / 10) * 10 + n % 10);
    }
}

/// A request object reads back as the method, params and id it was built from.
pub proof fn lemma_request_json_reads_back(j: Json, method: Seq<char>, params: Seq<Json>, id: u64)
    requires
        is_request_json(j, method, params, id),
    ensures
        request_fields(j) == Some((method, params, id)),
{
    lemma_decimal_reads_back(id as nat);
    if let Json::Object(f) = j {
        let s = f@;
        assert(s.drop_first()[0] == s[1]);
        assert(s.drop_first().drop_first()[0] == s[2]);
        assert(s.drop_first().drop_first().drop_first()[0] == s[3]);
        assert("jsonrpc"@ != "method"@) by {
            reveal_strlit("jsonrpc");
            reveal_strlit("method");
            assert("jsonrpc"@[0] != "method"@[0]);
        }
        assert("jsonrpc"@ != "params"@) by {
            reveal_strlit("jsonrpc");
            reveal_strlit("params");
            assert("jsonrpc"@[0] != "params"@[0]);
        }
        assert("jsonrpc"@ != "id"@) by {
            reveal_strlit("jsonrpc");
            reveal_strlit("id");
            assert("jsonrpc"@[0] != "id"@[0]);
        }
        assert("method"@ != "params"@) by {
            reveal_strlit("method");
            reveal_strlit("params");
            assert("method"@[0] != "params"@[0]);
        }
        assert("method"@ != "id"@) by {
            reveal_strlit("method");
            reveal_strlit("id");
            assert("method"@[0] != "id"@[0]);
        }
        assert("params"@ != "id"@) by {
            reveal_strlit("params");
            reveal_strlit("id");
            assert("params"@[0] != "id"@[0]);
        }
        reveal_with_fuel(crate::json::lookup, 5);
    }
}

fn text_json(t: &str) -> (r: Json)
    ensures
        is_text(r, t@),
{
    Json::Str(String::from_str(t))
}

impl Request {
    /// A request for `method` with `params` and `id`.
    pub fn new(method: String, params: Vec<Json>, id: u64) -> (r: Request)
        ensures
            r.method == method,
            r.params == params,
            r.id == id,
    {
        Request { method, params, id }
    }

    /// The request as a JSON-RPC 2.0 object.
    pub fn into_json(self) -> (j: Json)
        ensures
            is_request_json(j, self.method@, self.params@, self.id),
    {
        let mut f: Vec<(String, Json)> = Vec::new();
        f.push((String::from_str("jsonrpc"), text_json("2.0")));
        f.push((String::from_str("method"), Json::Str(self.method)));
        f.push((String::from_str("params"), Json::Array(self.params)));
        f.push((String::from_str("id"), Json::Number(decimal_text(self.id))));
        Json::Object(f)
    }

    /// The request printed as JSON text and addressed to `url`.
    pub fn as_sys_string(self, url: &String) -> (r: HttpCall)
        ensures
            is_call(r, url@, self.method@, self.params@, self.id),
    {
        let request = self.into_json();
        let body = render_json(&request);
        HttpCall {
            url: url.clone(),
            content_type: String::from_str("application/json"),
            request,
            body,
        }
    }

    /// Reads a request object back into its method, params and id.
    pub fn from_json(j: Json) -> (r: Option<Request>)
        ensures
            match r {
                Some(q) => request_fields(j) == Some((q.method@, q.params@, q.id)),
                None => request_fields(j) is None,
            },
    {
        match j {
            Json::Object(mut fields) => {
                let version_ok = match find_member(&fields, "jsonrpc") {
                    Some(k) => match &fields[k].1 {
                        Json::Str(v) => same_text(v.as_str(), "2.0"),
                        _ => false,
                    },
                    None => false,
                };
                let method = match find_member(&fields, "method") {
                    Some(k) => match &fields[k].1 {
                        Json::Str(m) => Some(m.clone()),
                        _ => None,
                    },
                    None => None,
                };
                let id = match find_member(&fields, "id") {
                    Some(k) => match &fields[k].1 {
                        Json::Number(t) => u64_from_text(t.as_str()),
                        _ => None,
                    },
                    None => None,
                };
                let pk = match find_member(&fields, "params") {
                    Some(k) => match &fields[k].1 {
                        Json::Array(_) => Some(k),
                        _ => None,
                    },
                    None => None,
                };
                if !version_ok {
                    return None;
                }
                match (method, id, pk) {
                    (Some(m), Some(i), Some(k)) => {
                        let (_, p) = fields.remove(k);
                        match p {
                            Json::Array(params) => Some(Request { method: m, params, id: i }),
                            _ => None,
                        }
                    },
                    _ => None,
                }
            },
            _ => None,
        }
    }

    /// Reads a request back from its JSON text.
    pub fn from_text(text: &str) -> (r: Option<Request>)
        ensures
            match json_parsed(text@) {
                Some(j) => match r {
                    Some(q) => request_fields(j) == Some((q.method@, q.params@, q.id)),
                    None => request_fields(j) is None,
                },
                None => r is None,
            },
    {
        match parse_json(text) {
            Some(j) => Request::from_json(j),
            None => None,
        }
    }
}

} // verus!
