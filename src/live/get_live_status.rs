//! The live status of a channel: `GET /polling/v2/channels/{id}/live-status`.
use vstd::prelude::*;

use super::{fill_segment, segment_ok, undefined, utf8_lossy};
use crate::json::{json_text_value, parse_json};
use crate::model::live::live_status_from_wire;
use crate::model::sealed::{self, wire_live_status_of};
use crate::model::LiveStatus;
use crate::request::{envelope_of, ChzzkResponse, DecodeError, EncodeError, Method, Request};
use crate::CHZZK_API_URL;

pub use super::Error;

verus! {

#[derive(Clone, PartialEq)]
pub struct GetLiveStatus<'a> {
    pub channel_id: &'a str,
}

/// The status that a response body holds: the envelope's content read as a
/// wire status, then converted.
pub open spec fn live_status_response(b: Seq<u8>) -> Option<LiveStatus> {
    match json_text_value(b) {
        Some(v) => match envelope_of(v) {
            Some(e) => match wire_live_status_of(e.content) {
                Some(w) => live_status_from_wire(w),
                None => None,
            },
            None => None,
        },
        None => None,
    }
}

impl<'a> GetLiveStatus<'a> {
    /// The request for this channel's live status.
    pub fn encode_ref(&self) -> (r: Result<Request, EncodeError>)
        ensures
            segment_ok(self.channel_id@) ==> (r matches Ok(q) && q.base_url@ == CHZZK_API_URL@
                && q.method == Method::Get && q.path@ == "/polling/v2/channels/"@
                + self.channel_id@ + "/live-status"@ && q.headers is None && q.body is None
                && q.query is None),
            !segment_ok(self.channel_id@) ==> (r matches Err(EncodeError::SerializePath(v))
                && v@ == self.channel_id@),
    {
        let path = fill_segment("/polling/v2/channels/", self.channel_id, "/live-status")?;
        Ok(
            Request {
                base_url: CHZZK_API_URL,
                method: Method::Get,
                path,
                headers: None,
                body: None,
                query: None,
            },
        )
    }

    /// Reads a live status out of a response body.
    pub fn decode(bytes: &[u8]) -> (r: Result<LiveStatus, DecodeError>)
        ensures
            match live_status_response(bytes@) {
                Some(s) => r == Ok::<LiveStatus, DecodeError>(s),
                None => r is Err,
            },
    {
        let v = match parse_json(bytes) {
            Ok(v) => v,
            Err(m) => return Err(DecodeError::DeserializeJson(m)),
        };
        let e = match ChzzkResponse::from_json(v) {
            Some(e) => e,
            None => return Err(DecodeError::DeserializeJson("unexpected shape of response".to_owned())),
        };
        let w = match sealed::LiveStatus::from_json(&e.content) {
            Some(w) => w,
            None => return Err(DecodeError::DeserializeJson("unexpected shape of live status".to_owned())),
        };
        LiveStatus::try_from_wire(w)
    }

    /// What a call returns, given the status and body of the response:
    /// the decoded body on 200, the status and the body's text otherwise.
    pub fn respond(status: u16, bytes: &[u8]) -> (r: Result<LiveStatus, Error>)
        ensures
            status == 200 ==> match live_status_response(bytes@) {
                Some(s) => r == Ok::<LiveStatus, Error>(s),
                None => r matches Err(Error::Decode(_)),
            },
            status != 200 ==> (r matches Err(Error::Undefined(c, t)) && c == status
                && t@ == utf8_lossy(bytes@) && (vstd::utf8::valid_utf8(bytes@) ==> t@
                == vstd::utf8::decode_utf8(bytes@))),
    {
        if status == 200 {
            match GetLiveStatus::decode(bytes) {
                Ok(s) => Ok(s),
                Err(e) => Err(Error::Decode(e)),
            }
        } else {
            Err(undefined(status, bytes))
        }
    }
}

} // verus!
