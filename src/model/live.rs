//! Live broadcasts: their status, their detail and how they are played back.
use vstd::prelude::*;

use super::channel::PartialChannel;
use super::sealed;
use crate::request::DecodeError;
use crate::json::{
    bool_of, get, int_of, json_text_value, member, opt_bool_of,
    opt_string_of, parse_json, read_bool, read_i32, read_opt_bool, read_opt_string, read_string,
    read_u64, read_u8, read_usize, string_of, text_is, uint_of, JsonValue,
};

verus! {

#[derive(Debug, Clone, Copy, PartialEq, Eq, Structural)]
pub enum LiveStatusType {
    Open,
    Close,
}

#[derive(Debug, Clone, Copy, PartialEq, Eq, Structural)]
pub enum CategoryType {
    Game,
}

#[derive(Debug, Clone, Copy, PartialEq, Eq, Structural)]
pub enum LivePollingStatusType {
    Started,
    Stopped,
}

#[derive(Debug, Clone, Copy, PartialEq, Eq, Structural)]
pub enum PlayableStatusType {
    Playable,
}

#[derive(Debug, Clone, Copy, PartialEq, Eq, Structural)]
pub enum UserAdultStatusType {
    Adult,
    NotLoginUser,
}

#[derive(Debug, Clone, Copy, PartialEq, Eq, Structural)]
pub enum LivePlaybackStatusType {
    Started,
    Ended,
    Stopped,
}

#[derive(Debug, Clone, PartialEq, Eq)]
pub struct CdnInfo {
    pub cdn_type: String,
    pub zero_rating: bool,
}

#[derive(Debug, Clone, PartialEq, Eq)]
pub struct LivePlaybackMeta {
    pub video_id: String,
    pub stream_seq: u64,
    pub paid_live: bool,
    pub cdn_info: CdnInfo,
    pub cmcd_enabled: bool,
}

#[derive(Debug, Clone, PartialEq, Eq)]
pub struct LivePlaybackServiceMeta {
    pub content_type: String,
}

#[derive(Debug, Clone, PartialEq, Eq)]
pub struct LivePlaybackStatus {
    /// A date.
    pub start: String,
    /// A date.
    pub open: String,
    pub time_machine: bool,
    pub status: LivePlaybackStatusType,
}

#[derive(Debug, Clone, PartialEq, Eq)]
pub struct LivePlaybackApi {
    pub name: String,
    pub path: String,
}

#[derive(Debug, Clone, PartialEq, Eq)]
pub struct EncodingTrack {
    /// `"alow.stream"` where the track is audio only.
    pub encoding_track_id: String,
    pub audio_bit_rate: usize,
    pub audio_sampling_rate: usize,
    pub audio_channel: u8,
    pub avoid_reencoding: bool,
    pub audio_only: Option<bool>,
}

#[derive(Debug, Clone, PartialEq, Eq)]
pub struct AudioEncodingTrack {
    pub path: String,
    pub audio_codec: String,
}

#[derive(Debug, Clone, PartialEq, Eq)]
pub struct LivePlaybackMedia {
    pub media_id: String,
    pub protocol: String,
    pub path: String,
    pub encoding_track: Vec<EncodingTrack>,
}

#[derive(Debug, Clone, PartialEq, Eq)]
pub struct LivePlayback {
    pub meta: LivePlaybackMeta,
    pub service_meta: LivePlaybackServiceMeta,
    pub live: LivePlaybackStatus,
    pub api: Vec<LivePlaybackApi>,
    pub media: Vec<LivePlaybackMedia>,
}

#[derive(Debug, Clone, PartialEq, Eq)]
pub struct LivePollingStatus {
    pub status: LivePollingStatusType,
    pub is_publishing: bool,
    pub playable_status: String,
    pub traffic_throttling: i32,
    pub call_period_ms: u64,
}

// ---- enums, read from their upper-case names ----

pub open spec fn live_status_type_of(m: Option<JsonValue>) -> Option<LiveStatusType> {
    match string_of(m) {
        Some(s) => if s@ == "OPEN"@ {
            Some(LiveStatusType::Open)
        } else if s@ == "CLOSE"@ {
            Some(LiveStatusType::Close)
        } else {
            None
        },
        None => None,
    }
}

pub open spec fn live_polling_status_type_of(m: Option<JsonValue>) -> Option<LivePollingStatusType> {
    match string_of(m) {
        Some(s) => if s@ == "STARTED"@ {
            Some(LivePollingStatusType::Started)
        } else if s@ == "STOPPED"@ {
            Some(LivePollingStatusType::Stopped)
        } else {
            None
        },
        None => None,
    }
}

pub open spec fn live_playback_status_type_of(m: Option<JsonValue>) -> Option<LivePlaybackStatusType> {
    match string_of(m) {
        Some(s) => if s@ == "STARTED"@ {
            Some(LivePlaybackStatusType::Started)
        } else if s@ == "ENDED"@ {
            Some(LivePlaybackStatusType::Ended)
        } else if s@ == "STOPPED"@ {
            Some(LivePlaybackStatusType::Stopped)
        } else {
            None
        },
        None => None,
    }
}

/// An optional adult status: absent and `null` both read as `None`.
pub open spec fn opt_user_adult_status_of(m: Option<JsonValue>) -> Option<Option<UserAdultStatusType>> {
    match m {
        None => Some(None),
        Some(JsonValue::Null) => Some(None),
        Some(JsonValue::Str(s)) => if s@ == "ADULT"@ {
            Some(Some(UserAdultStatusType::Adult))
        } else if s@ == "NOT_LOGIN_USER"@ {
            Some(Some(UserAdultStatusType::NotLoginUser))
        } else {
            None
        },
        _ => None,
    }
}

impl LiveStatusType {
    pub fn read(v: &JsonValue, key: &str) -> (r: Option<LiveStatusType>)
        ensures
            r == live_status_type_of(member(*v, key@)),
    {
        let s = read_string(v, key)?;
        if text_is(&s, "OPEN") {
            Some(LiveStatusType::Open)
        } else if text_is(&s, "CLOSE") {
            Some(LiveStatusType::Close)
        } else {
            None
        }
    }
}

impl LivePollingStatusType {
    pub fn read(v: &JsonValue, key: &str) -> (r: Option<LivePollingStatusType>)
        ensures
            r == live_polling_status_type_of(member(*v, key@)),
    {
        let s = read_string(v, key)?;
        if text_is(&s, "STARTED") {
            Some(LivePollingStatusType::Started)
        } else if text_is(&s, "STOPPED") {
            Some(LivePollingStatusType::Stopped)
        } else {
            None
        }
    }
}

impl LivePlaybackStatusType {
    pub fn read(v: &JsonValue, key: &str) -> (r: Option<LivePlaybackStatusType>)
        ensures
            r == live_playback_status_type_of(member(*v, key@)),
    {
        let s = read_string(v, key)?;
        if text_is(&s, "STARTED") {
            Some(LivePlaybackStatusType::Started)
        } else if text_is(&s, "ENDED") {
            Some(LivePlaybackStatusType::Ended)
        } else if text_is(&s, "STOPPED") {
            Some(LivePlaybackStatusType::Stopped)
        } else {
            None
        }
    }
}

impl UserAdultStatusType {
    pub fn read_opt(v: &JsonValue, key: &str) -> (r: Option<Option<UserAdultStatusType>>)
        ensures
            r == opt_user_adult_status_of(member(*v, key@)),
    {
        match get(v, key) {
            None => Some(None),
            Some(JsonValue::Null) => Some(None),
            Some(JsonValue::Str(s)) => if text_is(s, "ADULT") {
                Some(Some(UserAdultStatusType::Adult))
            } else if text_is(s, "NOT_LOGIN_USER") {
                Some(Some(UserAdultStatusType::NotLoginUser))
            } else {
                None
            },
            _ => None,
        }
    }
}

// ---- structures without lists ----

pub open spec fn cdn_info_of(v: JsonValue) -> Option<CdnInfo> {
    let cdn_type = string_of(member(v, "cdnType"@));
    let zero_rating = bool_of(member(v, "zeroRating"@));
    if cdn_type is Some && zero_rating is Some {
        Some(CdnInfo { cdn_type: cdn_type->0, zero_rating: zero_rating->0 })
    } else {
        None
    }
}

/// A required member read by `cdn_info_of`.
pub open spec fn cdn_info_at(m: Option<JsonValue>) -> Option<CdnInfo> {
    match m {
        Some(x) => cdn_info_of(x),
        None => None,
    }
}

pub open spec fn live_playback_meta_of(v: JsonValue) -> Option<LivePlaybackMeta> {
    let video_id = string_of(member(v, "videoId"@));
    let stream_seq = uint_of(member(v, "streamSeq"@), u64::MAX as int);
    let paid_live = bool_of(member(v, "paidLive"@));
    let cdn_info = cdn_info_at(member(v, "cdnInfo"@));
    let cmcd_enabled = bool_of(member(v, "cmcdEnabled"@));
    if video_id is Some && stream_seq is Some && paid_live is Some && cdn_info is Some
        && cmcd_enabled is Some {
        Some(
            LivePlaybackMeta {
                video_id: video_id->0,
                stream_seq: stream_seq->0 as u64,
                paid_live: paid_live->0,
                cdn_info: cdn_info->0,
                cmcd_enabled: cmcd_enabled->0,
            },
        )
    } else {
        None
    }
}

pub open spec fn live_playback_service_meta_of(v: JsonValue) -> Option<LivePlaybackServiceMeta> {
    let content_type = string_of(member(v, "contentType"@));
    if content_type is Some {
        Some(LivePlaybackServiceMeta { content_type: content_type->0 })
    } else {
        None
    }
}

pub open spec fn live_playback_status_of(v: JsonValue) -> Option<LivePlaybackStatus> {
    let start = string_of(member(v, "start"@));
    let open = string_of(member(v, "open"@));
    let time_machine = bool_of(member(v, "timeMachine"@));
    let status = live_playback_status_type_of(member(v, "status"@));
    if start is Some && open is Some && time_machine is Some && status is Some {
        Some(
            LivePlaybackStatus {
                start: start->0,
                open: open->0,
                time_machine: time_machine->0,
                status: status->0,
            },
        )
    } else {
        None
    }
}

pub open spec fn live_playback_api_of(v: JsonValue) -> Option<LivePlaybackApi> {
    let name = string_of(member(v, "name"@));
    let path = string_of(member(v, "path"@));
    if name is Some && path is Some {
        Some(LivePlaybackApi { name: name->0, path: path->0 })
    } else {
        None
    }
}

pub open spec fn encoding_track_of(v: JsonValue) -> Option<EncodingTrack> {
    let encoding_track_id = string_of(member(v, "encodingTrackId"@));
    let audio_bit_rate = uint_of(member(v, "audioBitRate"@), usize::MAX as int);
    let audio_sampling_rate = uint_of(member(v, "audioSamplingRate"@), usize::MAX as int);
    let audio_channel = uint_of(member(v, "audioChannel"@), u8::MAX as int);
    let avoid_reencoding = bool_of(member(v, "avoidReencoding"@));
    let audio_only = opt_bool_of(member(v, "audioOnly"@));
    if encoding_track_id is Some && audio_bit_rate is Some && audio_sampling_rate is Some
        && audio_channel is Some && avoid_reencoding is Some && audio_only is Some {
        Some(
            EncodingTrack {
                encoding_track_id: encoding_track_id->0,
                audio_bit_rate: audio_bit_rate->0 as usize,
                audio_sampling_rate: audio_sampling_rate->0 as usize,
                audio_channel: audio_channel->0 as u8,
                avoid_reencoding: avoid_reencoding->0,
                audio_only: audio_only->0,
            },
        )
    } else {
        None
    }
}

pub open spec fn audio_encoding_track_of(v: JsonValue) -> Option<AudioEncodingTrack> {
    let path = string_of(member(v, "path"@));
    let audio_codec = string_of(member(v, "audioCodec"@));
    if path is Some && audio_codec is Some {
        Some(AudioEncodingTrack { path: path->0, audio_codec: audio_codec->0 })
    } else {
        None
    }
}

pub open spec fn live_polling_status_of(v: JsonValue) -> Option<LivePollingStatus> {
    let status = live_polling_status_type_of(member(v, "status"@));
    let is_publishing = bool_of(member(v, "isPublishing"@));
    let playable_status = string_of(member(v, "playableStatus"@));
    let traffic_throttling = int_of(member(v, "trafficThrottling"@), i32::MIN as int, i32::MAX as int);
    let call_period_ms = uint_of(member(v, "callPeriodMilliSecond"@), u64::MAX as int);
    if status is Some && is_publishing is Some && playable_status is Some
        && traffic_throttling is Some && call_period_ms is Some {
        Some(
            LivePollingStatus {
                status: status->0,
                is_publishing: is_publishing->0,
                playable_status: playable_status->0,
                traffic_throttling: traffic_throttling->0 as i32,
                call_period_ms: call_period_ms->0 as u64,
            },
        )
    } else {
        None
    }
}

impl CdnInfo {
    pub fn from_json(v: &JsonValue) -> (r: Option<CdnInfo>)
        ensures
            r == cdn_info_of(*v),
    {
        let cdn_type = read_string(v, "cdnType")?;
        let zero_rating = read_bool(v, "zeroRating")?;
        Some(CdnInfo { cdn_type, zero_rating })
    }
}

impl LivePlaybackMeta {
    pub fn from_json(v: &JsonValue) -> (r: Option<LivePlaybackMeta>)
        ensures
            r == live_playback_meta_of(*v),
    {
        let video_id = read_string(v, "videoId")?;
        let stream_seq = read_u64(v, "streamSeq")?;
        let paid_live = read_bool(v, "paidLive")?;
        let cdn_info = CdnInfo::from_json(get(v, "cdnInfo")?)?;
        let cmcd_enabled = read_bool(v, "cmcdEnabled")?;
        Some(LivePlaybackMeta { video_id, stream_seq, paid_live, cdn_info, cmcd_enabled })
    }
}

impl LivePlaybackServiceMeta {
    pub fn from_json(v: &JsonValue) -> (r: Option<LivePlaybackServiceMeta>)
        ensures
            r == live_playback_service_meta_of(*v),
    {
        let content_type = read_string(v, "contentType")?;
        Some(LivePlaybackServiceMeta { content_type })
    }
}

impl LivePlaybackStatus {
    pub fn from_json(v: &JsonValue) -> (r: Option<LivePlaybackStatus>)
        ensures
            r == live_playback_status_of(*v),
    {
        let start = read_string(v, "start")?;
        let open = read_string(v, "open")?;
        let time_machine = read_bool(v, "timeMachine")?;
        let status = LivePlaybackStatusType::read(v, "status")?;
        Some(LivePlaybackStatus { start, open, time_machine, status })
    }
}

impl LivePlaybackApi {
    pub fn from_json(v: &JsonValue) -> (r: Option<LivePlaybackApi>)
        ensures
            r == live_playback_api_of(*v),
    {
        let name = read_string(v, "name")?;
        let path = read_string(v, "path")?;
        Some(LivePlaybackApi { name, path })
    }
}

impl EncodingTrack {
    pub fn from_json(v: &JsonValue) -> (r: Option<EncodingTrack>)
        ensures
            r == encoding_track_of(*v),
    {
        let encoding_track_id = read_string(v, "encodingTrackId")?;
        let audio_bit_rate = read_usize(v, "audioBitRate")?;
        let audio_sampling_rate = read_usize(v, "audioSamplingRate")?;
        let audio_channel = read_u8(v, "audioChannel")?;
        let avoid_reencoding = read_bool(v, "avoidReencoding")?;
        let audio_only = read_opt_bool(v, "audioOnly")?;
        Some(
            EncodingTrack {
                encoding_track_id,
                audio_bit_rate,
                audio_sampling_rate,
                audio_channel,
                avoid_reencoding,
                audio_only,
            },
        )
    }
}

impl AudioEncodingTrack {
    pub fn from_json(v: &JsonValue) -> (r: Option<AudioEncodingTrack>)
        ensures
            r == audio_encoding_track_of(*v),
    {
        let path = read_string(v, "path")?;
        let audio_codec = read_string(v, "audioCodec")?;
        Some(AudioEncodingTrack { path, audio_codec })
    }
}

impl LivePollingStatus {
    pub fn from_json(v: &JsonValue) -> (r: Option<LivePollingStatus>)
        ensures
            r == live_polling_status_of(*v),
    {
        let status = LivePollingStatusType::read(v, "status")?;
        let is_publishing = read_bool(v, "isPublishing")?;
        let playable_status = read_string(v, "playableStatus")?;
        let traffic_throttling = read_i32(v, "trafficThrottling")?;
        let call_period_ms = read_u64(v, "callPeriodMilliSecond")?;
        Some(LivePollingStatus { status, is_publishing, playable_status, traffic_throttling, call_period_ms })
    }
}

// ---- structures with lists ----

/// Whether a JSON object has the shape of a playback medium.
pub open spec fn live_playback_media_ok(v: JsonValue) -> bool {
    &&& string_of(member(v, "mediaId"@)) is Some
    &&& string_of(member(v, "protocol"@)) is Some
    &&& string_of(member(v, "path"@)) is Some
    &&& track_list_ok(member(v, "encodingTrack"@))
}

/// Whether `m` is the playback medium that a JSON object holds.
pub open spec fn live_playback_media_matches(v: JsonValue, m: LivePlaybackMedia) -> bool {
    &&& string_of(member(v, "mediaId"@)) == Some(m.media_id)
    &&& string_of(member(v, "protocol"@)) == Some(m.protocol)
    &&& string_of(member(v, "path"@)) == Some(m.path)
    &&& track_list_matches(member(v, "encodingTrack"@), m.encoding_track@)
}

/// Whether the array `m` holds only encoding tracks.
pub open spec fn track_list_ok(m: Option<JsonValue>) -> bool {
    &&& m matches Some(JsonValue::Array(_))
    &&& forall|i: int|
        0 <= i < m->0->Array_0@.len() ==> #[trigger] encoding_track_of(m->0->Array_0@[i]) is Some
}

/// Whether `r` holds, in order, the encoding tracks of the array `m`.
pub open spec fn track_list_matches(m: Option<JsonValue>, r: Seq<EncodingTrack>) -> bool {
    &&& m matches Some(JsonValue::Array(_))
    &&& m->0->Array_0@.len() == r.len()
    &&& forall|i: int| 0 <= i < r.len() ==> #[trigger] encoding_track_of(m->0->Array_0@[i]) == Some(r[i])
}

/// Whether the array `m` holds only playback endpoints.
pub open spec fn api_list_ok(m: Option<JsonValue>) -> bool {
    &&& m matches Some(JsonValue::Array(_))
    &&& forall|i: int|
        0 <= i < m->0->Array_0@.len() ==> #[trigger] live_playback_api_of(m->0->Array_0@[i]) is Some
}

/// Whether `r` holds, in order, the playback endpoints of the array `m`.
pub open spec fn api_list_matches(m: Option<JsonValue>, r: Seq<LivePlaybackApi>) -> bool {
    &&& m matches Some(JsonValue::Array(_))
    &&& m->0->Array_0@.len() == r.len()
    &&& forall|i: int| 0 <= i < r.len() ==> #[trigger] live_playback_api_of(m->0->Array_0@[i]) == Some(r[i])
}

/// Whether the array `m` holds only playback media.
pub open spec fn media_list_ok(m: Option<JsonValue>) -> bool {
    &&& m matches Some(JsonValue::Array(_))
    &&& forall|i: int|
        0 <= i < m->0->Array_0@.len() ==> #[trigger] live_playback_media_ok(m->0->Array_0@[i])
}

/// Whether `r` holds, in order, the playback media of the array `m`.
pub open spec fn media_list_matches(m: Option<JsonValue>, r: Seq<LivePlaybackMedia>) -> bool {
    &&& m matches Some(JsonValue::Array(_))
    &&& m->0->Array_0@.len() == r.len()
    &&& forall|i: int|
        0 <= i < r.len() ==> #[trigger] live_playback_media_matches(m->0->Array_0@[i], r[i])
}

/// A required member read by the given reader.
pub open spec fn at<T>(m: Option<JsonValue>, f: spec_fn(JsonValue) -> Option<T>) -> Option<T> {
    match m {
        Some(x) => f(x),
        None => None,
    }
}

/// Whether a JSON object has the shape of a playback description.
pub open spec fn live_playback_ok(v: JsonValue) -> bool {
    &&& at(member(v, "meta"@), |x: JsonValue| live_playback_meta_of(x)) is Some
    &&& at(member(v, "serviceMeta"@), |x: JsonValue| live_playback_service_meta_of(x)) is Some
    &&& at(member(v, "live"@), |x: JsonValue| live_playback_status_of(x)) is Some
    &&& api_list_ok(member(v, "api"@))
    &&& media_list_ok(member(v, "media"@))
}

/// Whether `p` is the playback description that a JSON object holds.
pub open spec fn live_playback_matches(v: JsonValue, p: LivePlayback) -> bool {
    &&& at(member(v, "meta"@), |x: JsonValue| live_playback_meta_of(x)) == Some(p.meta)
    &&& at(member(v, "serviceMeta"@), |x: JsonValue| live_playback_service_meta_of(x)) == Some(p.service_meta)
    &&& at(member(v, "live"@), |x: JsonValue| live_playback_status_of(x)) == Some(p.live)
    &&& api_list_matches(member(v, "api"@), p.api@)
    &&& media_list_matches(member(v, "media"@), p.media@)
}

impl EncodingTrack {
    /// Reads the array member `key` of `v` as a list of encoding tracks.
    pub fn read_list(v: &JsonValue, key: &str) -> (r: Option<Vec<EncodingTrack>>)
        ensures
            r is Some <==> track_list_ok(member(*v, key@)),
            r matches Some(l) ==> track_list_matches(member(*v, key@), l@),
    {
        match get(v, key) {
            Some(JsonValue::Array(items)) => {
                let mut out: Vec<EncodingTrack> = Vec::new();
                let mut i: usize = 0;
                while i < items.len()
                    invariant
                        i <= items@.len(),
                        out@.len() == i,
                        member(*v, key@) == Some(JsonValue::Array(*items)),
                        forall|j: int| 0 <= j < i ==> #[trigger] encoding_track_of(items@[j]) == Some(out@[j]),
                    decreases items@.len() - i,
                {
                    match EncodingTrack::from_json(&items[i]) {
                        Some(t) => out.push(t),
                        None => {
                            let ghost w = JsonValue::Array(*items);
                            assert(w->Array_0 == *items);
                            assert(encoding_track_of(items@[i as int]) is None);
                            return None;
                        },
                    }
                    i = i + 1;
                }
                let ghost w = JsonValue::Array(*items);
                assert(w->Array_0 == *items);
                Some(out)
            },
            _ => None,
        }
    }
}

impl LivePlaybackApi {
    /// Reads the array member `key` of `v` as a list of playback endpoints.
    pub fn read_list(v: &JsonValue, key: &str) -> (r: Option<Vec<LivePlaybackApi>>)
        ensures
            r is Some <==> api_list_ok(member(*v, key@)),
            r matches Some(l) ==> api_list_matches(member(*v, key@), l@),
    {
        match get(v, key) {
            Some(JsonValue::Array(items)) => {
                let mut out: Vec<LivePlaybackApi> = Vec::new();
                let mut i: usize = 0;
                while i < items.len()
                    invariant
                        i <= items@.len(),
                        out@.len() == i,
                        member(*v, key@) == Some(JsonValue::Array(*items)),
                        forall|j: int| 0 <= j < i ==> #[trigger] live_playback_api_of(items@[j]) == Some(out@[j]),
                    decreases items@.len() - i,
                {
                    match LivePlaybackApi::from_json(&items[i]) {
                        Some(a) => out.push(a),
                        None => {
                            let ghost w = JsonValue::Array(*items);
                            assert(w->Array_0 == *items);
                            assert(live_playback_api_of(items@[i as int]) is None);
                            return None;
                        },
                    }
                    i = i + 1;
                }
                let ghost w = JsonValue::Array(*items);
                assert(w->Array_0 == *items);
                Some(out)
            },
            _ => None,
        }
    }
}

impl LivePlaybackMedia {
    pub fn from_json(v: &JsonValue) -> (r: Option<LivePlaybackMedia>)
        ensures
            r is Some <==> live_playback_media_ok(*v),
            r matches Some(m) ==> live_playback_media_matches(*v, m),
    {
        let media_id = read_string(v, "mediaId")?;
        let protocol = read_string(v, "protocol")?;
        let path = read_string(v, "path")?;
        let encoding_track = EncodingTrack::read_list(v, "encodingTrack")?;
        Some(LivePlaybackMedia { media_id, protocol, path, encoding_track })
    }

    /// Reads the array member `key` of `v` as a list of playback media.
    pub fn read_list(v: &JsonValue, key: &str) -> (r: Option<Vec<LivePlaybackMedia>>)
        ensures
            r is Some <==> media_list_ok(member(*v, key@)),
            r matches Some(l) ==> media_list_matches(member(*v, key@), l@),
    {
        match get(v, key) {
            Some(JsonValue::Array(items)) => {
                let mut out: Vec<LivePlaybackMedia> = Vec::new();
                let mut i: usize = 0;
                while i < items.len()
                    invariant
                        i <= items@.len(),
                        out@.len() == i,
                        member(*v, key@) == Some(JsonValue::Array(*items)),
                        forall|j: int| 0 <= j < i ==> live_playback_media_matches(items@[j], #[trigger] out@[j]),
                        forall|j: int| 0 <= j < i ==> #[trigger] live_playback_media_ok(items@[j]),
                    decreases items@.len() - i,
                {
                    match LivePlaybackMedia::from_json(&items[i]) {
                        Some(m) => out.push(m),
                        None => {
                            let ghost w = JsonValue::Array(*items);
                            assert(w->Array_0 == *items);
                            assert(!live_playback_media_ok(items@[i as int]));
                            return None;
                        },
                    }
                    i = i + 1;
                }
                let ghost w = JsonValue::Array(*items);
                assert(w->Array_0 == *items);
                Some(out)
            },
            _ => None,
        }
    }
}

impl LivePlayback {
    pub fn from_json(v: &JsonValue) -> (r: Option<LivePlayback>)
        ensures
            r is Some <==> live_playback_ok(*v),
            r matches Some(p) ==> live_playback_matches(*v, p),
    {
        let meta = LivePlaybackMeta::from_json(get(v, "meta")?)?;
        let service_meta = LivePlaybackServiceMeta::from_json(get(v, "serviceMeta")?)?;
        let live = LivePlaybackStatus::from_json(get(v, "live")?)?;
        let api = LivePlaybackApi::read_list(v, "api")?;
        let media = LivePlaybackMedia::read_list(v, "media")?;
        Some(LivePlayback { meta, service_meta, live, api, media })
    }
}

// ---- the public models of a live ----

#[derive(Debug, Clone, PartialEq, Eq)]
pub struct LiveStatus {
    pub live_title: String,
    pub status: LiveStatusType,
    pub concurrent_user_count: u64,
    pub accumulate_count: u64,
    pub paid_promotion: bool,
    pub adult: bool,
    pub chat_channel_id: Option<String>,
    pub category_type: Option<String>,
    pub live_category: Option<String>,
    pub live_category_value: Option<String>,
    pub live_polling_status: LivePollingStatus,
    pub user_adult_status: Option<UserAdultStatusType>,
    pub chat_active: bool,
    pub chat_available_group: String,
    pub chat_available_condition: String,
    pub min_follower_minute: u64,
}

#[derive(Debug, Clone, PartialEq, Eq)]
pub struct Live {
    pub live_title: String,
    pub live_image_url: Option<String>,
    pub default_thumbnail_image_url: Option<String>,
    pub concurrent_user_count: u64,
    pub accumulate_count: u64,
    pub open_date: String,
    pub live_id: u64,
    pub adult: bool,
    pub chat_channel_id: Option<String>,
    pub category_type: Option<String>,
    pub live_category: Option<String>,
    pub live_category_value: Option<String>,
    pub live_playback: Option<LivePlayback>,
    pub channel: PartialChannel,
}

#[derive(Debug, Clone, PartialEq, Eq)]
pub struct LiveDetail {
    pub inherit: Live,
    pub status: LiveStatusType,
    pub close_date: Option<String>,
    pub chat_active: bool,
    pub chat_available_group: String,
    pub paid_promotion: bool,
    pub chat_available_condition: String,
    pub min_follower_minute: u64,
    pub live_polling_status: LivePollingStatus,
    pub user_adult_status: Option<UserAdultStatusType>,
}

/// The document that the text `s` holds, read as UTF-8.
pub open spec fn nested_json(s: String) -> Option<JsonValue> {
    json_text_value(vstd::utf8::encode_utf8(s@))
}

/// The polling status that the text `s` holds.
pub open spec fn polling_status_of_text(s: String) -> Option<LivePollingStatus> {
    match nested_json(s) {
        Some(j) => live_polling_status_of(j),
        None => None,
    }
}

/// Whether the optional text `t` holds a playback description, or is absent.
pub open spec fn playback_text_ok(t: Option<String>) -> bool {
    match t {
        None => true,
        Some(s) => nested_json(s) matches Some(j) && live_playback_ok(j),
    }
}

/// Whether `p` is what the optional text `t` holds.
pub open spec fn playback_text_matches(t: Option<String>, p: Option<LivePlayback>) -> bool {
    match t {
        None => p is None,
        Some(s) => nested_json(s) matches Some(j) && p matches Some(q) && live_playback_matches(j, q),
    }
}

/// The status that a wire status converts into.
pub open spec fn live_status_from_wire(w: sealed::LiveStatus) -> Option<LiveStatus> {
    match polling_status_of_text(w.live_polling_status_json) {
        Some(p) => Some(
            LiveStatus {
                live_title: w.live_title,
                status: w.status,
                concurrent_user_count: w.concurrent_user_count,
                accumulate_count: w.accumulate_count,
                paid_promotion: w.paid_promotion,
                adult: w.adult,
                chat_channel_id: w.chat_channel_id,
                category_type: w.category_type,
                live_category: w.live_category,
                live_category_value: w.live_category_value,
                live_polling_status: p,
                user_adult_status: w.user_adult_status,
                chat_active: w.chat_active,
                chat_available_group: w.chat_available_group,
                chat_available_condition: w.chat_available_condition,
                min_follower_minute: w.min_follower_minute,
            },
        ),
        None => None,
    }
}

/// Whether `l` is what a wire live converts into.
pub open spec fn live_from_wire_matches(w: sealed::Live, l: Live) -> bool {
    &&& l.live_title == w.live_title
    &&& l.live_image_url == w.live_image_url
    &&& l.default_thumbnail_image_url == w.default_thumbnail_image_url
    &&& l.concurrent_user_count == w.concurrent_user_count
    &&& l.accumulate_count == w.accumulate_count
    &&& l.open_date == w.open_date
    &&& l.live_id == w.live_id
    &&& l.adult == w.adult
    &&& l.chat_channel_id == w.chat_channel_id
    &&& l.category_type == w.category_type
    &&& l.live_category == w.live_category
    &&& l.live_category_value == w.live_category_value
    &&& playback_text_matches(w.live_playback_json, l.live_playback)
    &&& l.channel == w.channel
}

/// Whether a wire detail converts at all.
pub open spec fn live_detail_from_wire_ok(w: sealed::LiveDetail) -> bool {
    playback_text_ok(w.inherit.live_playback_json) && polling_status_of_text(w.live_polling_status_json) is Some
}

/// Whether `d` is what a wire detail converts into.
pub open spec fn live_detail_from_wire_matches(w: sealed::LiveDetail, d: LiveDetail) -> bool {
    &&& live_from_wire_matches(w.inherit, d.inherit)
    &&& d.status == w.status
    &&& d.close_date == w.close_date
    &&& d.chat_active == w.chat_active
    &&& d.chat_available_group == w.chat_available_group
    &&& d.paid_promotion == w.paid_promotion
    &&& d.chat_available_condition == w.chat_available_condition
    &&& d.min_follower_minute == w.min_follower_minute
    &&& polling_status_of_text(w.live_polling_status_json) == Some(d.live_polling_status)
    &&& d.user_adult_status == w.user_adult_status
}

/// The status part of a detail; the closing date is dropped.
pub open spec fn live_status_of_detail(d: LiveDetail) -> LiveStatus {
    LiveStatus {
        live_title: d.inherit.live_title,
        status: d.status,
        concurrent_user_count: d.inherit.concurrent_user_count,
        accumulate_count: d.inherit.accumulate_count,
        paid_promotion: d.paid_promotion,
        adult: d.inherit.adult,
        chat_channel_id: d.inherit.chat_channel_id,
        category_type: d.inherit.category_type,
        live_category: d.inherit.live_category,
        live_category_value: d.inherit.live_category_value,
        live_polling_status: d.live_polling_status,
        user_adult_status: d.user_adult_status,
        chat_active: d.chat_active,
        chat_available_group: d.chat_available_group,
        chat_available_condition: d.chat_available_condition,
        min_follower_minute: d.min_follower_minute,
    }
}

/// Parses the text of an embedded document.
fn parse_nested(s: &String) -> (r: Result<JsonValue, DecodeError>)
    ensures
        match r {
            Ok(v) => nested_json(*s) == Some(v),
            Err(_) => nested_json(*s) is None,
        },
{
    match parse_json(s.as_str().as_bytes()) {
        Ok(v) => Ok(v),
        Err(m) => Err(DecodeError::DeserializeJson(m)),
    }
}

/// The error for JSON that has not the shape of `what`.
fn shape_error(what: &str) -> DecodeError {
    let mut m = "unexpected shape of ".to_owned();
    m.append(what);
    DecodeError::DeserializeJson(m)
}

impl LivePollingStatus {
    /// Reads a polling status out of the text of an embedded document.
    pub fn from_text(s: &String) -> (r: Result<LivePollingStatus, DecodeError>)
        ensures
            match polling_status_of_text(*s) {
                Some(p) => r == Ok::<LivePollingStatus, DecodeError>(p),
                None => r is Err,
            },
    {
        let v = parse_nested(s)?;
        match LivePollingStatus::from_json(&v) {
            Some(p) => Ok(p),
            None => Err(shape_error("live polling status")),
        }
    }
}

impl LivePlayback {
    /// Reads a playback description out of the text of an embedded document,
    /// where there is one.
    pub fn from_opt_text(t: &Option<String>) -> (r: Result<Option<LivePlayback>, DecodeError>)
        ensures
            r is Ok <==> playback_text_ok(*t),
            r matches Ok(p) ==> playback_text_matches(*t, p),
    {
        match t {
            None => Ok(None),
            Some(s) => {
                let v = parse_nested(s)?;
                match LivePlayback::from_json(&v) {
                    Some(p) => Ok(Some(p)),
                    None => Err(shape_error("live playback")),
                }
            },
        }
    }
}

impl LiveStatus {
    /// Converts the wire status, parsing its embedded polling status.
    pub fn try_from_wire(w: sealed::LiveStatus) -> (r: Result<LiveStatus, DecodeError>)
        ensures
            match live_status_from_wire(w) {
                Some(s) => r == Ok::<LiveStatus, DecodeError>(s),
                None => r is Err,
            },
    {
        let live_polling_status = LivePollingStatus::from_text(&w.live_polling_status_json)?;
        Ok(
            LiveStatus {
                live_title: w.live_title,
                status: w.status,
                concurrent_user_count: w.concurrent_user_count,
                accumulate_count: w.accumulate_count,
                paid_promotion: w.paid_promotion,
                adult: w.adult,
                chat_channel_id: w.chat_channel_id,
                category_type: w.category_type,
                live_category: w.live_category,
                live_category_value: w.live_category_value,
                live_polling_status,
                user_adult_status: w.user_adult_status,
                chat_active: w.chat_active,
                chat_available_group: w.chat_available_group,
                chat_available_condition: w.chat_available_condition,
                min_follower_minute: w.min_follower_minute,
            },
        )
    }

    /// The status part of a detail; the closing date is dropped.
    pub fn from_detail(d: LiveDetail) -> (r: LiveStatus)
        ensures
            r == live_status_of_detail(d),
    {
        LiveStatus {
            live_title: d.inherit.live_title,
            status: d.status,
            concurrent_user_count: d.inherit.concurrent_user_count,
            accumulate_count: d.inherit.accumulate_count,
            paid_promotion: d.paid_promotion,
            adult: d.inherit.adult,
            chat_channel_id: d.inherit.chat_channel_id,
            category_type: d.inherit.category_type,
            live_category: d.inherit.live_category,
            live_category_value: d.inherit.live_category_value,
            live_polling_status: d.live_polling_status,
            user_adult_status: d.user_adult_status,
            chat_active: d.chat_active,
            chat_available_group: d.chat_available_group,
            chat_available_condition: d.chat_available_condition,
            min_follower_minute: d.min_follower_minute,
        }
    }
}

impl Live {
    /// Converts the wire live, parsing its embedded playback description.
    pub fn try_from_wire(w: sealed::Live) -> (r: Result<Live, DecodeError>)
        ensures
            r is Ok <==> playback_text_ok(w.live_playback_json),
            r matches Ok(l) ==> live_from_wire_matches(w, l),
    {
        let live_playback = LivePlayback::from_opt_text(&w.live_playback_json)?;
        Ok(
            Live {
                live_title: w.live_title,
                live_image_url: w.live_image_url,
                default_thumbnail_image_url: w.default_thumbnail_image_url,
                concurrent_user_count: w.concurrent_user_count,
                accumulate_count: w.accumulate_count,
                open_date: w.open_date,
                live_id: w.live_id,
                adult: w.adult,
                chat_channel_id: w.chat_channel_id,
                category_type: w.category_type,
                live_category: w.live_category,
                live_category_value: w.live_category_value,
                live_playback,
                channel: w.channel,
            },
        )
    }
}

impl LiveDetail {
    /// Converts the wire detail, parsing both its embedded documents.
    pub fn try_from_wire(w: sealed::LiveDetail) -> (r: Result<LiveDetail, DecodeError>)
        ensures
            r is Ok <==> live_detail_from_wire_ok(w),
            r matches Ok(d) ==> live_detail_from_wire_matches(w, d),
    {
        let live_polling_status = LivePollingStatus::from_text(&w.live_polling_status_json)?;
        let inherit = Live::try_from_wire(w.inherit)?;
        Ok(
            LiveDetail {
                inherit,
                status: w.status,
                close_date: w.close_date,
                chat_active: w.chat_active,
                chat_available_group: w.chat_available_group,
                paid_promotion: w.paid_promotion,
                chat_available_condition: w.chat_available_condition,
                min_follower_minute: w.min_follower_minute,
                live_polling_status,
                user_adult_status: w.user_adult_status,
            },
        )
    }
}

impl LiveStatusType {
    /// The upper-case name this status is written with.
    pub fn to_json(&self) -> (r: JsonValue)
        ensures
            live_status_type_of(Some(r)) == Some(*self),
    {
        proof {
            reveal_strlit("OPEN");
            reveal_strlit("CLOSE");
            assert("CLOSE"@ != "OPEN"@) by {
                assert("CLOSE"@.len() != "OPEN"@.len());
            }
        }
        match *self {
            LiveStatusType::Open => JsonValue::Str("OPEN".to_owned()),
            LiveStatusType::Close => JsonValue::Str("CLOSE".to_owned()),
        }
    }
}

impl UserAdultStatusType {
    /// `null` for `None`, the upper-case name of the status for `Some`.
    pub fn opt_to_json(o: &Option<UserAdultStatusType>) -> (r: JsonValue)
        ensures
            opt_user_adult_status_of(Some(r)) == Some(*o),
    {
        proof {
            reveal_strlit("ADULT");
            reveal_strlit("NOT_LOGIN_USER");
            assert("NOT_LOGIN_USER"@ != "ADULT"@) by {
                assert("NOT_LOGIN_USER"@.len() != "ADULT"@.len());
            }
        }
        match *o {
            None => JsonValue::Null,
            Some(UserAdultStatusType::Adult) => JsonValue::Str("ADULT".to_owned()),
            Some(UserAdultStatusType::NotLoginUser) => JsonValue::Str("NOT_LOGIN_USER".to_owned()),
        }
    }
}

} // verus!
