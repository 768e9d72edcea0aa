//! Requests as plain values, the response envelope, and the errors of
//! encoding a request and decoding a response.
use vstd::prelude::*;

use crate::json::{get, member, opt_string_of, read_opt_string, read_u16, uint_of, JsonValue};

verus! {

/// The HTTP methods a request can use.
#[derive(Debug, Clone, Copy, PartialEq, Eq, Structural)]
pub enum Method {
    Get,
    Post,
    Put,
    Patch,
    Delete,
}

/// A body to send: its media type and its bytes.
#[derive(Debug, Clone, PartialEq, Eq)]
pub struct RequestBody {
    pub content_type: String,
    pub buf: Vec<u8>,
}

/// One HTTP request, ready to be handed to a transport.
#[derive(Debug, Clone, PartialEq, Eq)]
pub struct Request {
    pub base_url: &'static str,
    pub method: Method,
    pub path: String,
    pub headers: Option<Vec<(String, String)>>,
    pub body: Option<RequestBody>,
    pub query: Option<String>,
}

/// The three session cookies that authenticate a caller.
#[derive(Debug, Clone, PartialEq, Eq)]
pub struct Auth {
    pub nid_ses: String,
    pub nid_aut: String,
    pub nid_jkl: String,
}

/// Why a request could not be built.
#[derive(Debug, Clone, PartialEq, Eq)]
pub enum EncodeError {
    /// A value cannot stand as a segment of a URL path; it is carried here.
    SerializePath(String),
}

/// Why a response could not be read: the text is no JSON, or the JSON has
/// not the expected shape. The message says which.
#[derive(Debug, Clone, PartialEq, Eq)]
pub enum DecodeError {
    DeserializeJson(String),
}

/// The envelope around every response body.
#[derive(Debug)]
pub struct ChzzkResponse<T> {
    pub code: u16,
    pub message: Option<String>,
    pub content: T,
}

/// The URL of a request: base, path, then `?` and the query where one is
/// given and not empty.
pub open spec fn url_of(r: Request) -> Seq<char> {
    match r.query {
        Some(q) => if q@.len() > 0 {
            r.base_url@ + r.path@ + "?"@ + q@
        } else {
            r.base_url@ + r.path@
        },
        None => r.base_url@ + r.path@,
    }
}

/// One `name=value` pair of a cookie header.
pub open spec fn cookie_pair_of(name: Seq<char>, value: Seq<char>) -> Seq<char> {
    name + "="@ + value
}

/// The cookie header that carries the three session cookies.
pub open spec fn cookie_header_of(a: Auth) -> Seq<char> {
    cookie_pair_of("NID_SES"@, a.nid_ses@) + "; "@ + cookie_pair_of("NID_AUT"@, a.nid_aut@) + "; "@
        + cookie_pair_of("NID_JKL"@, a.nid_jkl@)
}

/// Relies on `cookie::Cookie::new` and its stripped `Display`, which write
/// the name, `=`, and the value, unchanged.
#[verifier::external_body]
fn cookie_pair(name: &str, value: &str) -> (r: String)
    ensures
        r@ == cookie_pair_of(name@, value@),
{
    cookie::Cookie::new(name, value).stripped().to_string()
}

impl Request {
    /// The URL this request is sent to.
    pub fn url(&self) -> (r: String)
        ensures
            r@ == url_of(*self),
    {
        let mut url = self.base_url.to_owned();
        url.append(self.path.as_str());
        match &self.query {
            Some(q) => {
                let empty = String::new();
                assert(q@.len() == 0 ==> q@ =~= empty@);
                if !(*q == empty) {
                    url.append("?");
                    url.append(q.as_str());
                }
            },
            None => {},
        }
        url
    }
}

impl Auth {
    /// The value of the `Cookie` header that authenticates a request.
    pub fn cookie_header(&self) -> (r: String)
        ensures
            r@ == cookie_header_of(*self),
    {
        let mut h = cookie_pair("NID_SES", self.nid_ses.as_str());
        h.append("; ");
        let aut = cookie_pair("NID_AUT", self.nid_aut.as_str());
        h.append(aut.as_str());
        h.append("; ");
        let jkl = cookie_pair("NID_JKL", self.nid_jkl.as_str());
        h.append(jkl.as_str());
        h
    }
}

/// The envelope that a JSON document holds, if it has that shape.
pub open spec fn envelope_of(v: JsonValue) -> Option<ChzzkResponse<JsonValue>> {
    let code = uint_of(member(v, "code"@), u16::MAX as int);
    let message = opt_string_of(member(v, "message"@));
    let content = member(v, "content"@);
    if code is Some && message is Some && content is Some {
        Some(ChzzkResponse { code: code->0 as u16, message: message->0, content: content->0 })
    } else {
        None
    }
}

/// Takes the member `key` out of `v`.
fn take_member(v: JsonValue, key: &str) -> (r: Option<JsonValue>)
    ensures
        r == member(v, key@),
{
    match v {
        JsonValue::Object(mut entries) => {
            let ghost orig = entries@;
            let k = key.to_owned();
            let mut i: usize = 0;
            assert(entries@.subrange(0, entries@.len() as int) =~= entries@);
            while i < entries.len()
                invariant
                    entries@ == orig,
                    member(v, key@) == crate::json::lookup(orig, key@),
                    i <= entries@.len(),
                    k@ == key@,
                    lookup_rest(orig, i as int, key@),
                decreases entries@.len() - i,
            {
                let ghost rest = entries@.subrange(i as int, entries@.len() as int);
                assert(rest.drop_first() =~= entries@.subrange(i + 1, entries@.len() as int));
                assert(rest[0] == entries@[i as int]);
                if entries[i].0 == k {
                    let (_, x) = entries.remove(i);
                    return Some(x);
                }
                i = i + 1;
            }
            None
        },
        _ => None,
    }
}

/// The lookup of `key` in `entries` gives what it gives in `entries[i..]`.
pub open spec fn lookup_rest(entries: Seq<(String, JsonValue)>, i: int, key: Seq<char>) -> bool {
    crate::json::lookup(entries, key) == crate::json::lookup(entries.subrange(i, entries.len() as int), key)
}

impl ChzzkResponse<JsonValue> {
    /// Reads the envelope of a response, keeping its content as JSON.
    pub fn from_json(v: JsonValue) -> (r: Option<ChzzkResponse<JsonValue>>)
        ensures
            r == envelope_of(v),
    {
        let code = read_u16(&v, "code")?;
        let message = read_opt_string(&v, "message")?;
        let content = take_member(v, "content")?;
        Some(ChzzkResponse { code, message, content })
    }
}

} // verus!
