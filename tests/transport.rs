use veilmail::client::{ClientConfig, VeilMailOptions, DEFAULT_BASE_URL, DEFAULT_TIMEOUT_SECS};
use veilmail::error::VeilMailError;
use veilmail::http::{check_status, filter_query, handle_response, request_url, trim_trailing_slashes, unwrap_data};
use veilmail::json::{JsonNumber, JsonValue};

fn text(s: &str) -> JsonValue {
    JsonValue::String(s.to_string())
}

fn parse_failure() -> serde_json::Error {
    serde_json::from_str::<serde_json::Value>("not json").unwrap_err()
}

#[test]
fn no_content_is_empty_object() {
    for body in [Err(parse_failure()), Ok(text("ignored")), Ok(JsonValue::Null)] {
        match handle_response(204, body) {
            Ok(JsonValue::Object(members)) => assert!(members.is_empty()),
            other => panic!("unexpected {:?}", other),
        }
    }
}

#[test]
fn success_hands_on_body() {
    match handle_response(200, Ok(text("ok"))) {
        Ok(JsonValue::String(s)) => assert_eq!(s, "ok"),
        other => panic!("unexpected {:?}", other),
    }
    assert!(matches!(handle_response(201, Ok(JsonValue::Null)), Ok(JsonValue::Null)));
}

#[test]
fn unparsable_success_body_is_a_deserialization_error() {
    assert!(matches!(handle_response(200, Err(parse_failure())), Err(VeilMailError::Json(_))));
    assert!(matches!(handle_response(201, Err(parse_failure())), Err(VeilMailError::Json(_))));
}

#[test]
fn failure_is_classified() {
    let body = JsonValue::Object(vec![("message".to_string(), text("gone"))]);
    match handle_response(404, Ok(body)) {
        Err(VeilMailError::NotFound { message, .. }) => assert_eq!(message, "gone"),
        other => panic!("unexpected {:?}", other),
    }
    match handle_response(500, Err(parse_failure())) {
        Err(VeilMailError::Server { status_code, message, .. }) => {
            assert_eq!(status_code, 500);
            assert_eq!(message, "Unknown error");
        }
        other => panic!("unexpected {:?}", other),
    }
}

#[test]
fn check_status_outcomes() {
    assert!(check_status(200, None).is_ok());
    assert!(check_status(204, None).is_ok());
    assert!(matches!(check_status(403, None), Err(VeilMailError::Forbidden { .. })));
}

#[test]
fn empty_query_values_are_dropped() {
    let params = [("a", "1"), ("b", ""), ("c", "3"), ("d", "")];
    assert_eq!(filter_query(&params), vec![("a", "1"), ("c", "3")]);
    assert!(filter_query(&[("x", "")]).is_empty());
    assert!(filter_query(&[]).is_empty());
}

#[test]
fn base_url_loses_trailing_slashes() {
    assert_eq!(trim_trailing_slashes("https://h.example//"), "https://h.example");
    assert_eq!(trim_trailing_slashes("https://h.example"), "https://h.example");
    assert_eq!(trim_trailing_slashes("///"), "");
}

#[test]
fn url_joins_base_and_path() {
    assert_eq!(request_url("https://h.example", "/v1/emails"), "https://h.example/v1/emails");
}

#[test]
fn key_prefix_is_checked() {
    match ClientConfig::new("sk_123", None) {
        Err(VeilMailError::Other(m)) => assert_eq!(m, "API key must start with 'veil_live_' or 'veil_test_'"),
        Err(e) => panic!("unexpected {:?}", e),
        Ok(_) => panic!("accepted a bad key"),
    }
    assert!(ClientConfig::new("veil_live", None).is_err());
    assert!(ClientConfig::new("veil_live_abc", None).is_ok());
    assert!(ClientConfig::new("veil_test_abc", None).is_ok());
}

#[test]
fn defaults_and_options() {
    let c = ClientConfig::new("veil_test_x", None).ok().unwrap();
    assert_eq!(c.base_url, DEFAULT_BASE_URL);
    assert_eq!(c.base_url, "https://api.veilmail.xyz");
    assert_eq!(c.timeout_secs, DEFAULT_TIMEOUT_SECS);
    assert_eq!(c.timeout_secs, 30);
    assert_eq!(c.api_key, "veil_test_x");
    let opts = VeilMailOptions { base_url: Some("http://localhost:8080/"), timeout_secs: Some(5) };
    let c = ClientConfig::new("veil_live_y", Some(opts)).ok().unwrap();
    assert_eq!(c.base_url, "http://localhost:8080");
    assert_eq!(c.timeout_secs, 5);
}

#[test]
fn data_wrapper_is_unwrapped() {
    let inner = JsonValue::Object(vec![("id".to_string(), text("e1"))]);
    let wrapped = JsonValue::Object(vec![("data".to_string(), inner)]);
    match unwrap_data(wrapped) {
        JsonValue::Object(m) => {
            assert_eq!(m.len(), 1);
            assert_eq!(m[0].0, "id");
        }
        other => panic!("unexpected {:?}", other),
    }
    let list = JsonValue::Object(vec![("data".to_string(), JsonValue::Array(vec![JsonValue::Number(JsonNumber::PosInt(1))]))]);
    match unwrap_data(list) {
        JsonValue::Object(m) => assert_eq!(m[0].0, "data"),
        other => panic!("unexpected {:?}", other),
    }
}
