//! The live endpoints: building their requests and reading their responses.
use vstd::prelude::*;

use crate::model::live::{live_status_of_detail, LiveDetail};
use crate::request::{DecodeError, EncodeError};
use get_live_detail::live_detail_response_matches;
use get_live_status::live_status_response;

pub mod get_live_detail;
pub mod get_live_status;

verus! {

/// Why a call of an endpoint failed, short of the transport failing.
#[derive(Debug, Clone, PartialEq, Eq)]
pub enum Error {
    Encode(EncodeError),
    Decode(DecodeError),
    /// The server answered with a status other than 200: the status and
    /// the body, as text.
    Undefined(u16, String),
}

/// Bytes that stand in a URL path segment as they are: letters, digits and
/// `-`, `.`, `_`, `~`.
pub open spec fn is_unreserved(b: u8) -> bool {
    (0x41 <= b <= 0x5a) || (0x61 <= b <= 0x7a) || (0x30 <= b <= 0x39) || b == 0x2d || b == 0x2e
        || b == 0x5f || b == 0x7e
}

/// Whether the text `s` can be placed in a URL path segment unchanged.
pub open spec fn segment_ok(s: Seq<char>) -> bool {
    let b = vstd::utf8::encode_utf8(s);
    b.len() > 0 && forall|i: int| 0 <= i < b.len() ==> #[trigger] is_unreserved(b[i])
}

/// The body of a response as text: a UTF-8 body as it is, other bytes with
/// replacement characters.
pub uninterp spec fn utf8_lossy(b: Seq<u8>) -> Seq<char>;

/// Relies on `String::from_utf8_lossy`, which returns valid UTF-8 unchanged.
#[verifier::external_body]
fn lossy_text(b: &[u8]) -> (r: String)
    ensures
        r@ == utf8_lossy(b@),
        vstd::utf8::valid_utf8(b@) ==> r@ == vstd::utf8::decode_utf8(b@),
{
    String::from_utf8_lossy(b).into_owned()
}

/// The error for a response whose status is not 200.
pub fn undefined(status: u16, body: &[u8]) -> (r: Error)
    ensures
        r matches Error::Undefined(c, t) && c == status && t@ == utf8_lossy(body@)
            && (vstd::utf8::valid_utf8(body@) ==> t@ == vstd::utf8::decode_utf8(body@)),
{
    Error::Undefined(status, lossy_text(body))
}

/// A live detail read from a response body, projected to its status, is
/// the status that the live-status decoding reads from the same body.
pub proof fn lemma_detail_projects_to_status(b: Seq<u8>, d: LiveDetail)
    requires
        live_detail_response_matches(b, d),
    ensures
        live_status_response(b) == Some(live_status_of_detail(d)),
{
}

/// The path `prefix`, `value`, `suffix`, where `value` can stand in a path
/// segment as it is; the error carries `value` otherwise.
pub fn fill_segment(prefix: &str, value: &str, suffix: &str) -> (r: Result<String, EncodeError>)
    ensures
        segment_ok(value@) ==> (r matches Ok(p) && p@ == prefix@ + value@ + suffix@),
        !segment_ok(value@) ==> (r matches Err(EncodeError::SerializePath(v)) && v@ == value@),
{
    let bytes = value.as_bytes();
    let n = bytes.len();
    let mut ok = n > 0;
    let mut i: usize = 0;
    while i < n
        invariant
            n == bytes@.len(),
            bytes@ == vstd::utf8::encode_utf8(value@),
            i <= n,
            ok == (n > 0 && forall|j: int| 0 <= j < i ==> #[trigger] is_unreserved(bytes@[j])),
        decreases n - i,
    {
        let b = bytes[i];
        let u = (0x41 <= b && b <= 0x5a) || (0x61 <= b && b <= 0x7a) || (0x30 <= b && b <= 0x39)
            || b == 0x2d || b == 0x2e || b == 0x5f || b == 0x7e;
        assert(u == is_unreserved(bytes@[i as int]));
        if !u {
            ok = false;
        }
        i = i + 1;
    }
    if ok {
        let mut p = prefix.to_owned();
        p.append(value);
        p.append(suffix);
        Ok(p)
    } else {
        Err(EncodeError::SerializePath(value.to_owned()))
    }
}

} // verus!
