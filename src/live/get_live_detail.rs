//! The detail of a channel's live: `GET /service/v2/channels/{id}/live-detail`.
use vstd::prelude::*;

use super::{fill_segment, segment_ok, undefined, utf8_lossy};
use crate::json::{json_text_value, parse_json};
use crate::model::live::{live_detail_from_wire_matches, live_detail_from_wire_ok};
use crate::model::sealed::{self, wire_live_detail_of};
use crate::model::LiveDetail;
use crate::request::{envelope_of, ChzzkResponse, DecodeError, EncodeError, Method, Request};
use crate::CHZZK_API_URL;

pub use super::Error;

verus! {

#[derive(Clone, PartialEq)]
pub struct GetLiveDetail<'a> {
    pub channel_id: &'a str,
}

/// Whether a response body holds a live detail: its envelope's content
/// reads as a wire detail, and that converts.
pub open spec fn live_detail_response_ok(b: Seq<u8>) -> bool {
    &&& json_text_value(b) matches Some(v)
    &&& envelope_of(v) matches Some(e)
    &&& wire_live_detail_of(e.content) matches Some(w)
    &&& live_detail_from_wire_ok(w)
}

/// Whether `d` is the live detail that a response body holds.
pub open spec fn live_detail_response_matches(b: Seq<u8>, d: LiveDetail) -> bool {
    &&& json_text_value(b) matches Some(v)
    &&& envelope_of(v) matches Some(e)
    &&& wire_live_detail_of(e.content) matches Some(w)
    &&& live_detail_from_wire_matches(w, d)
}

impl<'a> GetLiveDetail<'a> {
    /// The request for the detail of this channel's live.
    pub fn encode_ref(&self) -> (r: Result<Request, EncodeError>)
        ensures
            segment_ok(self.channel_id@) ==> (r matches Ok(q) && q.base_url@ == CHZZK_API_URL@
                && q.method == Method::Get && q.path@ == "/service/v2/channels/"@
                + self.channel_id@ + "/live-detail"@ && q.headers is None && q.body is None
                && q.query is None),
            !segment_ok(self.channel_id@) ==> (r matches Err(EncodeError::SerializePath(v))
                && v@ == self.channel_id@),
    {
        let path = fill_segment("/service/v2/channels/", self.channel_id, "/live-detail")?;
        Ok(
            Request {
                base_url: CHZZK_API_URL,
                method: Method::Get,
                path,
                headers: None,
                body: None,
                query: None,
            },
        )
    }

    /// Reads a live detail out of a response body.
    pub fn decode(bytes: &[u8]) -> (r: Result<LiveDetail, DecodeError>)
        ensures
            r is Ok <==> live_detail_response_ok(bytes@),
            r matches Ok(d) ==> live_detail_response_matches(bytes@, d),
    {
        let v = match parse_json(bytes) {
            Ok(v) => v,
            Err(m) => return Err(DecodeError::DeserializeJson(m)),
        };
        let e = match ChzzkResponse::from_json(v) {
            Some(e) => e,
            None => return Err(DecodeError::DeserializeJson("unexpected shape of response".to_owned())),
        };
        let w = match sealed::LiveDetail::from_json(&e.content) {
            Some(w) => w,
            None => return Err(DecodeError::DeserializeJson("unexpected shape of live detail".to_owned())),
        };
        LiveDetail::try_from_wire(w)
    }

    /// What a call returns, given the status and body of the response:
    /// the decoded body on 200, the status and the body's text otherwise.
    pub fn respond(status: u16, bytes: &[u8]) -> (r: Result<LiveDetail, Error>)
        ensures
            status == 200 ==> (r is Ok <==> live_detail_response_ok(bytes@)),
            status == 200 ==> (r matches Ok(d) ==> live_detail_response_matches(bytes@, d)),
            status == 200 ==> (r is Err ==> r matches Err(Error::Decode(_))),
            status != 200 ==> (r matches Err(Error::Undefined(c, t)) && c == status
                && t@ == utf8_lossy(bytes@) && (vstd::utf8::valid_utf8(bytes@) ==> t@
                == vstd::utf8::decode_utf8(bytes@))),
    {
        if status == 200 {
            match GetLiveDetail::decode(bytes) {
                Ok(d) => Ok(d),
                Err(e) => Err(Error::Decode(e)),
            }
        } else {
            Err(undefined(status, bytes))
        }
    }
}

} // verus!
