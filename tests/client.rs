use aegis_sdk::{check_header_value, encode_license_body, finish, frame_key_body};
use aegis_sdk::{Client, ClientError, Method, Request, Response};

fn client(api_key: &str, user_id: &str) -> Client {
    Client::new(
        "https://aegis.example".to_string(),
        api_key.to_string(),
        user_id.to_string(),
    )
}

fn header_pairs(q: &Request) -> Vec<(String, String)> {
    q.headers
        .iter()
        .map(|h| (h.name.clone(), h.value.clone()))
        .collect()
}

fn expected_pairs(api_key: &str, user_id: &str) -> Vec<(String, String)> {
    vec![
        ("Content-Type".to_string(), "application/json".to_string()),
        ("X-API-Key".to_string(), api_key.to_string()),
        ("X-User-ID".to_string(), user_id.to_string()),
    ]
}

#[test]
fn construction_accepts_any_configuration() {
    let c = Client::new(String::new(), "bad\nkey".to_string(), "\u{7f}".to_string());
    let copy = c.clone();
    assert_eq!(copy.get_tiers().unwrap_err(), ClientError::InvalidHeader);
}

#[test]
fn validate_license_posts_key_object() {
    let q = client("k1", "u1").validate_license("ABC-123").unwrap();
    assert_eq!(q.method, Method::Post);
    assert_eq!(q.url, "https://aegis.example/api/v1/license/validate");
    assert_eq!(q.body.as_deref(), Some("{\"key\":\"ABC-123\"}"));
    assert_eq!(header_pairs(&q), expected_pairs("k1", "u1"));
}

#[test]
fn license_body_reads_back_as_key() {
    for key in ["", "plain", "quo\"te", "back\\slash", "line\nbreak", "caf\u{e9} \u{1f511}", "x\"y\\z \u{e9}"] {
        let q = client("k", "u").validate_license(key).unwrap();
        let body = q.body.unwrap();
        let v: serde_json::Value = serde_json::from_str(&body).unwrap();
        let obj = v.as_object().unwrap();
        assert_eq!(obj.len(), 1);
        assert_eq!(obj.get("key").and_then(|k| k.as_str()), Some(key));
    }
}

#[test]
fn license_body_escapes_quotes() {
    assert_eq!(
        encode_license_body("a\"b").as_deref(),
        Some("{\"key\":\"a\\\"b\"}")
    );
}

#[test]
fn frame_key_body_wraps_value() {
    assert_eq!(frame_key_body("\"x\""), "{\"key\":\"x\"}");
    assert_eq!(frame_key_body("17"), "{\"key\":17}");
}

#[test]
fn get_tiers_is_bodiless_get() {
    let q = client("k", "u").get_tiers().unwrap();
    assert_eq!(q.method, Method::Get);
    assert_eq!(q.url, "https://aegis.example/api/v1/tiers");
    assert_eq!(q.body, None);
    assert_eq!(header_pairs(&q), expected_pairs("k", "u"));
}

#[test]
fn get_system_status_is_bodiless_get() {
    let q = client("k", "u").get_system_status().unwrap();
    assert_eq!(q.method, Method::Get);
    assert_eq!(q.url, "https://aegis.example/api/v1/system/status");
    assert_eq!(q.body, None);
    assert_eq!(header_pairs(&q), expected_pairs("k", "u"));
}

#[test]
fn get_security_check_is_bodiless_get() {
    let q = client("k", "u").get_security_check().unwrap();
    assert_eq!(q.method, Method::Get);
    assert_eq!(q.url, "https://aegis.example/api/v1/security/check");
    assert_eq!(q.body, None);
    assert_eq!(header_pairs(&q), expected_pairs("k", "u"));
}

#[test]
fn headers_carry_configured_values() {
    let key = "key with spaces\tand tab";
    let user = "us\u{e9}r-42";
    let c = client(key, user);
    for q in [
        c.validate_license("x").unwrap(),
        c.get_tiers().unwrap(),
        c.get_system_status().unwrap(),
        c.get_security_check().unwrap(),
    ] {
        assert_eq!(header_pairs(&q), expected_pairs(key, user));
    }
}

#[test]
fn do_request_keeps_body_for_post_only() {
    let c = client("k", "u");
    let body = Some("{\"a\":1}".to_string());
    let post = c.do_request(Method::Post, "/x", body.clone()).unwrap();
    assert_eq!(post.body, body);
    assert_eq!(post.url, "https://aegis.example/x");
    let get = c.do_request(Method::Get, "/x", body).unwrap();
    assert_eq!(get.body, None);
}

#[test]
fn newline_in_api_key_fails_every_method() {
    let c = client("abc\ndef", "u");
    assert_eq!(c.validate_license("k").unwrap_err(), ClientError::InvalidHeader);
    assert_eq!(c.get_tiers().unwrap_err(), ClientError::InvalidHeader);
    assert_eq!(c.get_system_status().unwrap_err(), ClientError::InvalidHeader);
    assert_eq!(c.get_security_check().unwrap_err(), ClientError::InvalidHeader);
}

#[test]
fn control_character_in_user_id_fails() {
    let c = client("k", "u\r");
    assert_eq!(c.get_tiers().unwrap_err(), ClientError::InvalidHeader);
    assert_eq!(c.validate_license("k").unwrap_err(), ClientError::InvalidHeader);
}

#[test]
fn header_value_characters() {
    assert!(check_header_value(""));
    assert!(check_header_value("a\tb ~"));
    assert!(check_header_value("\u{e9}\u{1f511}"));
    assert!(!check_header_value("a\u{7f}"));
    assert!(!check_header_value("\u{1f}"));
    assert!(!check_header_value("x\n"));
}

#[test]
fn error_status_body_is_returned_as_text() {
    let resp = Response { status: 401, body: "{\"error\":\"invalid key\"}".to_string() };
    assert_eq!(finish(Some(resp)).unwrap(), "{\"error\":\"invalid key\"}");
}

#[test]
fn tiers_body_is_returned_and_reads_as_license() {
    let text = "{\"tier\":\"pro\",\"price\":29,\"features\":[\"a\",\"b\"],\"expires\":\"2025-01-01\"}";
    let resp = Response { status: 200, body: text.to_string() };
    let out = finish(Some(resp)).unwrap();
    assert_eq!(out, text);
    let v: serde_json::Value = serde_json::from_str(&out).unwrap();
    assert_eq!(v["tier"].as_str(), Some("pro"));
    assert_eq!(v["price"].as_u64(), Some(29));
    assert_eq!(v["features"][1].as_str(), Some("b"));
    assert_eq!(v["expires"].as_str(), Some("2025-01-01"));
}

#[test]
fn missing_response_is_transport_error() {
    assert_eq!(finish(None).unwrap_err(), ClientError::Transport);
}
