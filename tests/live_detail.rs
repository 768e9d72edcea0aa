use chzzk::live::get_live_detail::GetLiveDetail;
use chzzk::live::get_live_status::GetLiveStatus;
use chzzk::live::Error;
use chzzk::model::{LivePlaybackStatusType, LiveStatus, LiveStatusType, UserAdultStatusType};
use chzzk::request::EncodeError;

const PLAYBACK: &str = r#"{
  "meta": {"videoId": "V1", "streamSeq": 77, "liveId": "L1", "paidLive": false,
           "cdnInfo": {"cdnType": "GCDN", "zeroRating": false}, "cmcdEnabled": true},
  "serviceMeta": {"contentType": "VIDEO"},
  "live": {"start": "2024-01-01T10:00:00", "open": "2024-01-01T10:00:05",
           "timeMachine": true, "status": "STARTED"},
  "api": [{"name": "p2p", "path": "https://example.invalid/p2p"}],
  "media": [
    {"mediaId": "HLS", "protocol": "HLS", "path": "https://example.invalid/hls.m3u8",
     "encodingTrack": [
       {"encodingTrackId": "1080p", "videoProfile": "high", "audioProfile": "LC",
        "videoCodec": "H264", "videoBitRate": 8000000, "videoFrameRate": "60.0",
        "videoWidth": 1920, "videoHeight": 1080, "videoDynamicRange": "SDR",
        "audioBitRate": 192000, "audioSamplingRate": 48000, "audioChannel": 2,
        "avoidReencoding": false},
       {"encodingTrackId": "alow.stream", "audioBitRate": 128000,
        "audioSamplingRate": 48000, "audioChannel": 2, "avoidReencoding": false,
        "audioOnly": true}
     ]}
  ]
}"#;

fn quoted(s: &str) -> String {
    serde_json::to_string(s).unwrap()
}

fn detail_body(playback: Option<&str>, polling: &str) -> String {
    let playback = match playback {
        Some(p) => quoted(p),
        None => "null".to_string(),
    };
    format!(
        r#"{{"code": 200, "message": null, "content": {{
  "liveId": 123456, "liveTitle": "evening stream", "status": "OPEN",
  "liveImageUrl": "https://example.invalid/{{type}}.jpg", "defaultThumbnailImageUrl": null,
  "concurrentUserCount": 1523, "accumulateCount": 40211,
  "openDate": "2024-01-01 10:00:00", "closeDate": null, "adult": false,
  "chatChannelId": "N1abcd", "categoryType": "GAME", "liveCategory": "League_of_Legends",
  "liveCategoryValue": "League of Legends", "chatActive": true,
  "chatAvailableGroup": "ALL", "paidPromotion": false, "chatAvailableCondition": "NONE",
  "minFollowerMinute": 0, "livePlaybackJson": {playback},
  "livePollingStatusJson": {polling}, "userAdultStatus": "ADULT",
  "channel": {{"channelId": "475313e6c26639d5763628313b4c130e", "channelName": "someone",
    "channelImageUrl": null, "verifiedMark": true,
    "personalData": {{"privateUserBlock": false}}}}
}}}}"#,
        playback = playback,
        polling = quoted(polling),
    )
}

const POLLING: &str = r#"{"status":"STARTED","isPublishing":true,"playableStatus":"PLAYABLE","trafficThrottling":-1,"callPeriodMilliSecond":10000}"#;

#[test]
fn detail_path_substitutes_channel_id() {
    let req = GetLiveDetail { channel_id: "475313e6c26639d5763628313b4c130e" }.encode_ref().unwrap();
    assert_eq!(req.path, "/service/v2/channels/475313e6c26639d5763628313b4c130e/live-detail");
    assert_eq!(
        req.url(),
        "https://api.chzzk.naver.com/service/v2/channels/475313e6c26639d5763628313b4c130e/live-detail"
    );
    let r = GetLiveDetail { channel_id: "x?y" }.encode_ref();
    assert_eq!(r.unwrap_err(), EncodeError::SerializePath("x?y".to_string()));
}

#[test]
fn detail_decodes_with_playback() {
    let body = detail_body(Some(PLAYBACK), POLLING);
    let d = GetLiveDetail::decode(body.as_bytes()).unwrap();
    assert_eq!(d.inherit.live_id, 123456);
    assert_eq!(d.inherit.live_title, "evening stream");
    assert_eq!(d.inherit.live_image_url.as_deref(), Some("https://example.invalid/{type}.jpg"));
    assert_eq!(d.inherit.default_thumbnail_image_url, None);
    assert_eq!(d.inherit.open_date, "2024-01-01 10:00:00");
    assert_eq!(d.close_date, None);
    assert_eq!(d.status, LiveStatusType::Open);
    assert_eq!(d.user_adult_status, Some(UserAdultStatusType::Adult));
    assert_eq!(d.inherit.channel.channel_id, "475313e6c26639d5763628313b4c130e");
    assert_eq!(d.inherit.channel.channel_name, "someone");
    assert!(d.inherit.channel.verified_mark);
    assert_eq!(d.inherit.channel.user_adult_status, None);
    assert!(!d.inherit.channel.personal_data.as_ref().unwrap().private_user_block);
    let p = d.inherit.live_playback.as_ref().unwrap();
    assert_eq!(p.meta.video_id, "V1");
    assert_eq!(p.meta.stream_seq, 77);
    assert_eq!(p.meta.cdn_info.cdn_type, "GCDN");
    assert!(p.meta.cmcd_enabled);
    assert_eq!(p.service_meta.content_type, "VIDEO");
    assert_eq!(p.live.status, LivePlaybackStatusType::Started);
    assert!(p.live.time_machine);
    assert_eq!(p.api.len(), 1);
    assert_eq!(p.api[0].name, "p2p");
    assert_eq!(p.media.len(), 1);
    assert_eq!(p.media[0].media_id, "HLS");
    assert_eq!(p.media[0].encoding_track.len(), 2);
    assert_eq!(p.media[0].encoding_track[0].encoding_track_id, "1080p");
    assert_eq!(p.media[0].encoding_track[0].audio_bit_rate, 192000);
    assert_eq!(p.media[0].encoding_track[0].audio_only, None);
    assert_eq!(p.media[0].encoding_track[1].encoding_track_id, "alow.stream");
    assert_eq!(p.media[0].encoding_track[1].audio_only, Some(true));
    assert_eq!(d.live_polling_status.call_period_ms, 10000);
}

#[test]
fn detail_decodes_without_playback() {
    let body = detail_body(None, POLLING);
    let d = GetLiveDetail::decode(body.as_bytes()).unwrap();
    assert_eq!(d.inherit.live_playback, None);
}

#[test]
fn detail_projects_to_status_of_same_payload() {
    let body = detail_body(Some(PLAYBACK), POLLING);
    let d = GetLiveDetail::decode(body.as_bytes()).unwrap();
    let s = GetLiveStatus::decode(body.as_bytes()).unwrap();
    assert_eq!(LiveStatus::from_detail(d), s);
}

#[test]
fn detail_malformed_nested_json_is_decode_error() {
    let body = detail_body(None, "{not json");
    assert!(GetLiveDetail::decode(body.as_bytes()).is_err());
    let body = detail_body(Some("{not json"), POLLING);
    assert!(GetLiveDetail::decode(body.as_bytes()).is_err());
}

#[test]
fn detail_playback_with_wrong_shape_is_decode_error() {
    let bad = PLAYBACK.replace(r#""audioChannel": 2, "avoidReencoding": false,
        "audioOnly": true"#, r#""audioChannel": 300, "avoidReencoding": false,
        "audioOnly": true"#);
    assert_ne!(bad, PLAYBACK);
    let body = detail_body(Some(&bad), POLLING);
    assert!(GetLiveDetail::decode(body.as_bytes()).is_err());
}

#[test]
fn detail_missing_content_is_decode_error() {
    assert!(GetLiveDetail::decode(br#"{"code": 200, "message": "ok"}"#).is_err());
}

#[test]
fn detail_not_found_exposes_status_and_body() {
    let r = GetLiveDetail::respond(404, b"channel not found");
    assert_eq!(r.unwrap_err(), Error::Undefined(404, "channel not found".to_string()));
}
