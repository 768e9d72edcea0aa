use chzzk::live::get_live_status::GetLiveStatus;
use chzzk::live::Error;
use chzzk::model::{LivePollingStatusType, LiveStatusType, UserAdultStatusType};
use chzzk::model::sealed;
use chzzk::request::{ChzzkResponse, DecodeError, EncodeError, Method};

const STATUS_BODY: &str = r#"{
  "code": 200,
  "message": null,
  "content": {
    "liveTitle": "evening stream",
    "status": "OPEN",
    "concurrentUserCount": 1523,
    "accumulateCount": 40211,
    "paidPromotion": false,
    "adult": false,
    "chatChannelId": "N1abcd",
    "categoryType": "GAME",
    "liveCategory": "League_of_Legends",
    "liveCategoryValue": "League of Legends",
    "livePollingStatusJson": "{\"status\":\"STARTED\",\"isPublishing\":true,\"playableStatus\":\"PLAYABLE\",\"trafficThrottling\":-1,\"callPeriodMilliSecond\":10000}",
    "faultStatus": null,
    "userAdultStatus": "NOT_LOGIN_USER",
    "chatActive": true,
    "chatAvailableGroup": "ALL",
    "chatAvailableCondition": "NONE",
    "minFollowerMinute": 0
  }
}"#;

#[test]
fn status_path_substitutes_channel_id() {
    let req = GetLiveStatus { channel_id: "475313e6c26639d5763628313b4c130e" }.encode_ref().unwrap();
    assert_eq!(req.path, "/polling/v2/channels/475313e6c26639d5763628313b4c130e/live-status");
    assert_eq!(req.method, Method::Get);
    assert_eq!(req.base_url, "https://api.chzzk.naver.com");
    assert!(req.headers.is_none());
    assert!(req.body.is_none());
    assert!(req.query.is_none());
    assert_eq!(
        req.url(),
        "https://api.chzzk.naver.com/polling/v2/channels/475313e6c26639d5763628313b4c130e/live-status"
    );
}

#[test]
fn status_path_rejects_unsafe_segment() {
    let r = GetLiveStatus { channel_id: "abc/../def" }.encode_ref();
    assert_eq!(r.unwrap_err(), EncodeError::SerializePath("abc/../def".to_string()));
    let r = GetLiveStatus { channel_id: "" }.encode_ref();
    assert_eq!(r.unwrap_err(), EncodeError::SerializePath(String::new()));
    let r = GetLiveStatus { channel_id: "a b" }.encode_ref();
    assert!(r.is_err());
}

#[test]
fn status_path_keeps_unreserved_marks() {
    let req = GetLiveStatus { channel_id: "a-b.c_d~e" }.encode_ref().unwrap();
    assert_eq!(req.path, "/polling/v2/channels/a-b.c_d~e/live-status");
}

#[test]
fn status_decodes_full_payload() {
    let s = GetLiveStatus::decode(STATUS_BODY.as_bytes()).unwrap();
    assert_eq!(s.live_title, "evening stream");
    assert_eq!(s.status, LiveStatusType::Open);
    assert_eq!(s.concurrent_user_count, 1523);
    assert_eq!(s.accumulate_count, 40211);
    assert!(!s.paid_promotion);
    assert!(!s.adult);
    assert_eq!(s.chat_channel_id.as_deref(), Some("N1abcd"));
    assert_eq!(s.category_type.as_deref(), Some("GAME"));
    assert_eq!(s.live_category.as_deref(), Some("League_of_Legends"));
    assert_eq!(s.live_category_value.as_deref(), Some("League of Legends"));
    assert_eq!(s.live_polling_status.status, LivePollingStatusType::Started);
    assert!(s.live_polling_status.is_publishing);
    assert_eq!(s.live_polling_status.playable_status, "PLAYABLE");
    assert_eq!(s.live_polling_status.traffic_throttling, -1);
    assert_eq!(s.live_polling_status.call_period_ms, 10000);
    assert_eq!(s.user_adult_status, Some(UserAdultStatusType::NotLoginUser));
    assert!(s.chat_active);
    assert_eq!(s.chat_available_group, "ALL");
    assert_eq!(s.chat_available_condition, "NONE");
    assert_eq!(s.min_follower_minute, 0);
}

#[test]
fn status_missing_content_is_decode_error() {
    let body = br#"{"code": 200, "message": null}"#;
    assert!(matches!(GetLiveStatus::decode(body), Err(DecodeError::DeserializeJson(_))));
}

#[test]
fn status_malformed_nested_json_is_decode_error() {
    let body = STATUS_BODY.replace(
        r#""livePollingStatusJson": "{\"status\":\"STARTED\",\"isPublishing\":true,\"playableStatus\":\"PLAYABLE\",\"trafficThrottling\":-1,\"callPeriodMilliSecond\":10000}""#,
        r#""livePollingStatusJson": "{not json""#,
    );
    assert!(body.contains("{not json"));
    assert!(GetLiveStatus::decode(body.as_bytes()).is_err());
}

#[test]
fn status_not_json_is_decode_error() {
    assert!(GetLiveStatus::decode(b"<html>").is_err());
    assert!(GetLiveStatus::decode(b"").is_err());
}

#[test]
fn status_unknown_enum_name_is_decode_error() {
    let body = STATUS_BODY.replace(r#""status": "OPEN""#, r#""status": "PAUSED""#);
    assert!(GetLiveStatus::decode(body.as_bytes()).is_err());
}

#[test]
fn status_negative_unsigned_is_decode_error() {
    let body = STATUS_BODY.replace(r#""minFollowerMinute": 0"#, r#""minFollowerMinute": -5"#);
    assert!(GetLiveStatus::decode(body.as_bytes()).is_err());
    let body = STATUS_BODY.replace(r#""minFollowerMinute": 0"#, r#""minFollowerMinute": 1.5"#);
    assert!(GetLiveStatus::decode(body.as_bytes()).is_err());
}

#[test]
fn status_optional_members_absent_or_null() {
    let body = STATUS_BODY
        .replace(r#""chatChannelId": "N1abcd","#, "")
        .replace(r#""userAdultStatus": "NOT_LOGIN_USER""#, r#""userAdultStatus": null"#)
        .replace(r#""categoryType": "GAME""#, r#""categoryType": null"#);
    let s = GetLiveStatus::decode(body.as_bytes()).unwrap();
    assert_eq!(s.chat_channel_id, None);
    assert_eq!(s.category_type, None);
    assert_eq!(s.user_adult_status, None);
}

#[test]
fn status_code_out_of_range_is_decode_error() {
    let body = STATUS_BODY.replace(r#""code": 200"#, r#""code": 70000"#);
    assert!(GetLiveStatus::decode(body.as_bytes()).is_err());
}

#[test]
fn status_not_found_exposes_status_and_body() {
    let r = GetLiveStatus::respond(404, b"channel not found");
    assert_eq!(r.unwrap_err(), Error::Undefined(404, "channel not found".to_string()));
}

#[test]
fn status_error_body_with_invalid_utf8_is_replaced() {
    let r = GetLiveStatus::respond(500, b"bad \xff body");
    assert_eq!(r.unwrap_err(), Error::Undefined(500, "bad \u{fffd} body".to_string()));
}

#[test]
fn status_ok_response_decodes() {
    let s = GetLiveStatus::respond(200, STATUS_BODY.as_bytes()).unwrap();
    assert_eq!(s.live_title, "evening stream");
    let r = GetLiveStatus::respond(200, b"{}");
    assert!(matches!(r, Err(Error::Decode(_))));
}

#[test]
fn wire_status_round_trips_through_json() {
    let w = sealed::LiveStatus {
        live_title: "title".to_string(),
        status: LiveStatusType::Close,
        concurrent_user_count: 3,
        accumulate_count: 9,
        paid_promotion: true,
        adult: false,
        chat_channel_id: None,
        category_type: Some("GAME".to_string()),
        live_category: None,
        live_category_value: Some("".to_string()),
        live_polling_status_json: r#"{"status":"STOPPED","isPublishing":false,"playableStatus":"NONE","trafficThrottling":0,"callPeriodMilliSecond":30000}"#.to_string(),
        user_adult_status: Some(UserAdultStatusType::Adult),
        chat_active: false,
        chat_available_group: "FOLLOWER".to_string(),
        chat_available_condition: "REAL_NAME".to_string(),
        min_follower_minute: 60,
    };
    let back = sealed::LiveStatus::from_json(&w.to_json()).unwrap();
    assert_eq!(back, w);
    let direct = chzzk::model::LiveStatus::try_from_wire(w.clone()).unwrap();
    let again = chzzk::model::LiveStatus::try_from_wire(back).unwrap();
    assert_eq!(direct, again);
    assert_eq!(direct.live_polling_status.status, LivePollingStatusType::Stopped);
    assert_eq!(direct.live_polling_status.call_period_ms, 30000);
    let env = ChzzkResponse::from_json(chzzk::json::JsonValue::Object(vec![
        ("code".to_string(), chzzk::json::JsonValue::Number(chzzk::json::JsonNumber::PosInt(200))),
        ("content".to_string(), w.to_json()),
    ]))
    .unwrap();
    assert_eq!(env.code, 200);
    assert_eq!(env.message, None);
    assert_eq!(sealed::LiveStatus::from_json(&env.content).unwrap(), w);
}
