use chzzk::json::{get, read_i32, read_u8, JsonNumber, JsonValue};
use chzzk::request::{Auth, Method, Request};

fn request(query: Option<&str>) -> Request {
    Request {
        base_url: "https://api.chzzk.naver.com",
        method: Method::Get,
        path: "/polling/v2/channels/abc/live-status".to_string(),
        headers: None,
        body: None,
        query: query.map(|q| q.to_string()),
    }
}

#[test]
fn url_appends_non_empty_query() {
    assert_eq!(
        request(Some("size=20&offset=0")).url(),
        "https://api.chzzk.naver.com/polling/v2/channels/abc/live-status?size=20&offset=0"
    );
    assert_eq!(request(Some("")).url(), "https://api.chzzk.naver.com/polling/v2/channels/abc/live-status");
    assert_eq!(request(None).url(), "https://api.chzzk.naver.com/polling/v2/channels/abc/live-status");
}

#[test]
fn auth_renders_three_cookies() {
    let auth = Auth {
        nid_ses: "ses-value".to_string(),
        nid_aut: "aut-value".to_string(),
        nid_jkl: "jkl-value".to_string(),
    };
    assert_eq!(auth.cookie_header(), "NID_SES=ses-value; NID_AUT=aut-value; NID_JKL=jkl-value");
}

#[test]
fn member_lookup_takes_first_match() {
    let v = JsonValue::Object(vec![
        ("a".to_string(), JsonValue::Number(JsonNumber::PosInt(1))),
        ("b".to_string(), JsonValue::Number(JsonNumber::NegInt(-7))),
        ("a".to_string(), JsonValue::Number(JsonNumber::PosInt(2))),
    ]);
    assert!(matches!(get(&v, "a"), Some(JsonValue::Number(JsonNumber::PosInt(1)))));
    assert!(get(&v, "c").is_none());
    assert_eq!(read_i32(&v, "b"), Some(-7));
    assert_eq!(read_u8(&v, "b"), None);
    assert!(get(&JsonValue::Null, "a").is_none());
}

#[test]
fn integer_ranges_are_checked() {
    let v = JsonValue::Object(vec![
        ("small".to_string(), JsonValue::Number(JsonNumber::PosInt(255))),
        ("big".to_string(), JsonValue::Number(JsonNumber::PosInt(256))),
        ("huge".to_string(), JsonValue::Number(JsonNumber::PosInt(3_000_000_000))),
        ("low".to_string(), JsonValue::Number(JsonNumber::NegInt(-3_000_000_000))),
        ("frac".to_string(), JsonValue::Number(JsonNumber::Float)),
    ]);
    assert_eq!(read_u8(&v, "small"), Some(255));
    assert_eq!(read_u8(&v, "big"), None);
    assert_eq!(read_i32(&v, "huge"), None);
    assert_eq!(read_i32(&v, "low"), None);
    assert_eq!(read_i32(&v, "frac"), None);
}
