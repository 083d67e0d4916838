//! The client side of the metadata service's line protocol: where it lives,
//! what a request holds, and what a reply means.

use vstd::prelude::*;
use crate::json::{
    JsonValue, JsonView, as_str, entries_view, find_key, get, json_text, json_text_of, json_text_value,
    lemma_object_view, member_str, parse_json_text, sanitize, sanitized,
};
use crate::text::{decimal, push_char, push_decimal};

verus! {

broadcast use vstd::string::group_string_axioms;

/// The serde_json number that `serde_json::Number::from(n)` makes.
pub uninterp spec fn json_number_of_u64(n: u64) -> serde_json::Number;

/// serde_json `Number::from(u64)`. Claimed: the result is `json_number_of_u64(n)`.
#[verifier::external_body]
fn json_number_from_u64(n: u64) -> (r: serde_json::Number)
    ensures
        r == json_number_of_u64(n),
{
    serde_json::Number::from(n)
}

/// Where the metadata service listens.
pub struct PythonClient {
    addr: String,
}

impl PythonClient {
    /// The `host:port` address the client connects to.
    pub closed spec fn address(&self) -> Seq<char> {
        self.addr@
    }

    /// A client for the service at `host` and `port`.
    pub fn new(host: String, port: u16) -> (c: Self)
        ensures
            c.address() == host@ + seq![':'] + decimal(port as nat),
    {
        let mut addr = host;
        push_char(&mut addr, ':');
        push_decimal(&mut addr, port as u64);
        PythonClient { addr }
    }

    /// The `host:port` address the client connects to.
    pub fn addr(&self) -> (r: &str)
        ensures
            r@ == self.address(),
    {
        self.addr.as_str()
    }
}

impl Clone for PythonClient {
    fn clone(&self) -> (r: Self)
        ensures
            r.address() == self.address(),
    {
        PythonClient { addr: self.addr.clone() }
    }
}

/// The request `{"action": action, "query": query}`.
pub open spec fn call_request(action: Seq<char>, query: Seq<char>) -> JsonView {
    JsonView::Object(seq![("action"@, JsonView::Str(action)), ("query"@, JsonView::Str(query))])
}

/// The search request `{"action": "search", "query": query, "limit": limit}`.
pub open spec fn search_request(query: Seq<char>, limit: u64) -> JsonView {
    JsonView::Object(
        seq![
            ("action"@, JsonView::Str("search"@)),
            ("query"@, JsonView::Str(query)),
            ("limit"@, JsonView::Number(json_number_of_u64(limit))),
        ],
    )
}

/// The request for `action` on `query`.
pub fn call_payload(action: &str, query: &str) -> (p: JsonValue)
    ensures
        p.view() == call_request(action@, query@),
{
    let mut es: Vec<(String, JsonValue)> = Vec::new();
    es.push((String::from_str("action"), JsonValue::Str(String::from_str(action))));
    es.push((String::from_str("query"), JsonValue::Str(String::from_str(query))));
    proof {
        lemma_object_view(es);
        assert(entries_view(es@) =~= call_request(action@, query@)->Object_0);
    }
    JsonValue::Object(es)
}

/// The search request for `query`, asking for at most `limit` results.
pub fn search_payload(query: &str, limit: usize) -> (p: JsonValue)
    ensures
        p.view() == search_request(query@, limit as u64),
{
    let mut es: Vec<(String, JsonValue)> = Vec::new();
    es.push((String::from_str("action"), JsonValue::Str(String::from_str("search"))));
    es.push((String::from_str("query"), JsonValue::Str(String::from_str(query))));
    es.push((String::from_str("limit"), JsonValue::Number(json_number_from_u64(limit as u64))));
    proof {
        lemma_object_view(es);
        assert(entries_view(es@) =~= search_request(query@, limit as u64)->Object_0);
    }
    JsonValue::Object(es)
}

/// What a reply means: with `"status": "ok"`, its `data` cleaned up;
/// otherwise the error text in `message`, or a generic one.
pub open spec fn reply_outcome(reply: JsonView) -> Result<JsonView, Seq<char>> {
    if get(reply, "status"@) == JsonView::Str("ok"@) {
        Ok(sanitized(get(reply, "data"@)))
    } else {
        Err(
            match as_str(get(reply, "message"@)) {
                Some(m) => m,
                None => "Error desconocido"@,
            },
        )
    }
}

/// Reads a reply of the service: the cleaned-up data, or the error text.
pub fn interpret_reply(reply: JsonValue) -> (r: Result<JsonValue, String>)
    ensures
        r matches Ok(d) ==> reply_outcome(reply.view()) == Ok::<JsonView, Seq<char>>(d.view()),
        r matches Err(m) ==> reply_outcome(reply.view()) == Err::<JsonView, Seq<char>>(m@),
{
    match reply {
        JsonValue::Object(es) => {
            let mut es = es;
            proof {
                lemma_object_view(es);
            }
            let status_key = String::from_str("status");
            let ok = match find_key(&es, &status_key) {
                Some(i) => match &es[i].1 {
                    JsonValue::Str(s) => {
                        let okay = String::from_str("ok");
                        *s == okay
                    },
                    _ => false,
                },
                None => false,
            };
            if !ok {
                let message_key = String::from_str("message");
                return match member_str(&es, &message_key) {
                    Some(m) => Err(m),
                    None => Err(String::from_str("Error desconocido")),
                };
            }
            let data_key = String::from_str("data");
            let data = match find_key(&es, &data_key) {
                Some(i) => {
                    let mut tmp: (String, JsonValue) = (String::new(), JsonValue::Null);
                    es.set_and_swap(i, &mut tmp);
                    tmp.1
                },
                None => JsonValue::Null,
            };
            Ok(sanitize(data))
        },
        _ => Err(String::from_str("Error desconocido")),
    }
}

/// The line that carries request `p` to the service: its JSON text and a
/// newline.
pub fn request_line(p: &JsonValue) -> (s: String)
    ensures
        s@ == json_text_of(p.view()) + seq!['\n'],
{
    let mut s = json_text(p);
    push_char(&mut s, '\n');
    s
}

/// Reads the reply line of the service: text that is no JSON document is an
/// error with serde_json's message; a document means what `reply_outcome`
/// says.
pub fn reply_of_line(line: &str) -> (r: Result<JsonValue, String>)
    ensures
        match json_text_value(line@) {
            Err(e) => r matches Err(m) && m@ == e,
            Ok(v) => match r {
                Ok(d) => reply_outcome(v) == Ok::<JsonView, Seq<char>>(d.view()),
                Err(m) => reply_outcome(v) == Err::<JsonView, Seq<char>>(m@),
            },
        },
{
    match parse_json_text(line) {
        Err(e) => Err(e),
        Ok(v) => interpret_reply(v),
    }
}

} // verus!
