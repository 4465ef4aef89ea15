use webhook_notifier::config::{build, ConfigError, NotifierConfig};
use webhook_notifier::headers::{header_name_is_valid, header_value_is_valid};
use webhook_notifier::notify::{effective_body, prepare_notification};
use webhook_notifier::task::{
    classify_response, completion_state, outcome_is_success, DeliveryOutcome, TaskState,
};
use webhook_notifier::url::url_is_valid;

fn config_with_headers(headers: Vec<(&str, &str)>) -> NotifierConfig {
    NotifierConfig {
        url: String::from("http://example.com/hook"),
        body: Some(String::from("ping")),
        headers: Some(
            headers
                .into_iter()
                .map(|(n, v)| (String::from(n), String::from(v)))
                .collect(),
        ),
    }
}

#[test]
fn header_name_grammar() {
    assert!(header_name_is_valid("X-Token"));
    assert!(header_name_is_valid("content-type"));
    assert!(header_name_is_valid("x"));
    assert!(!header_name_is_valid(""));
    assert!(!header_name_is_valid("Bad\nName"));
    assert!(!header_name_is_valid("Bad Name"));
    assert!(!header_name_is_valid("Bad:Name"));
    assert!(!header_name_is_valid("nam\u{e9}"));
}

#[test]
fn header_value_grammar() {
    assert!(header_value_is_valid("abc"));
    assert!(header_value_is_valid(""));
    assert!(header_value_is_valid("a b\tc"));
    assert!(header_value_is_valid("caf\u{e9}"));
    assert!(!header_value_is_valid("a\nb"));
    assert!(!header_value_is_valid("\u{7f}"));
    assert!(!header_value_is_valid("\r"));
}

#[test]
fn url_syntax() {
    assert!(url_is_valid("http://example.com/hook"));
    assert!(url_is_valid("https://example.com"));
    assert!(url_is_valid("http://localhost:8080/x?y=1"));
    assert!(!url_is_valid(""));
    assert!(!url_is_valid("ftp://example.com"));
    assert!(!url_is_valid("http://"));
    assert!(!url_is_valid("https://"));
    assert!(!url_is_valid("http:///nohost"));
    assert!(!url_is_valid("http://exa mple.com"));
    assert!(!url_is_valid("example.com"));
}

#[test]
fn build_accepts_valid_config() {
    let cfg = config_with_headers(vec![("X-Token", "abc")]);
    let prepared = build(&cfg).expect("a valid config must build");
    assert_eq!(prepared.url, "http://example.com/hook");
    assert_eq!(prepared.body.as_deref(), Some("ping"));
    let map = prepared.headers.as_ref().expect("headers were configured");
    assert_eq!(map.len(), 1);
    assert_eq!(map.get("X-Token").unwrap().to_str().unwrap(), "abc");
    assert_eq!(map.get("x-token").unwrap().to_str().unwrap(), "abc");
}

#[test]
fn build_without_headers() {
    let cfg = NotifierConfig {
        url: String::from("https://example.com"),
        body: None,
        headers: None,
    };
    let prepared = build(&cfg).expect("a config without headers must build");
    assert!(prepared.headers.is_none());
    assert!(prepared.body.is_none());
}

#[test]
fn build_rejects_control_character_in_header_name() {
    let cfg = config_with_headers(vec![("Bad\nName", "v")]);
    let err = build(&cfg).expect_err("a malformed header name must fail at setup");
    assert_eq!(err, ConfigError::InvalidHeader(String::from("Bad\nName")));
}

#[test]
fn build_rejects_control_character_in_header_value() {
    let cfg = config_with_headers(vec![("X-Token", "a\nb")]);
    let err = build(&cfg).expect_err("a malformed header value must fail at setup");
    assert_eq!(err, ConfigError::InvalidHeader(String::from("X-Token")));
}

#[test]
fn build_rejects_invalid_url() {
    let cfg = NotifierConfig {
        url: String::from("not a url"),
        body: None,
        headers: None,
    };
    assert_eq!(build(&cfg).unwrap_err(), ConfigError::InvalidUrl);
}

#[test]
fn build_reports_url_before_headers() {
    let mut cfg = config_with_headers(vec![("Bad\nName", "v")]);
    cfg.url = String::from("ftp://example.com");
    assert_eq!(build(&cfg).unwrap_err(), ConfigError::InvalidUrl);
}

#[test]
fn build_reports_first_bad_header() {
    let cfg = config_with_headers(vec![
        ("Good", "ok"),
        ("First\u{1}Bad", "v"),
        ("Second\u{1}Bad", "v"),
    ]);
    let err = build(&cfg).unwrap_err();
    assert_eq!(err, ConfigError::InvalidHeader(String::from("First\u{1}Bad")));
}

#[test]
fn build_keeps_last_value_of_duplicate_names() {
    let cfg = config_with_headers(vec![("X-A", "1"), ("x-a", "2")]);
    let prepared = build(&cfg).unwrap();
    let map = prepared.headers.as_ref().unwrap();
    assert_eq!(map.len(), 1);
    assert_eq!(map.get("X-A").unwrap().to_str().unwrap(), "2");
}

#[test]
fn build_accepts_the_largest_header_set() {
    let headers: Vec<(String, String)> = (0..webhook_notifier::headers::MAX_PREPARED_HEADERS)
        .map(|i| (format!("x-h-{}", i), format!("{}", i)))
        .collect();
    let cfg = NotifierConfig {
        url: String::from("http://example.com/hook"),
        body: None,
        headers: Some(headers),
    };
    let prepared = build(&cfg).expect("a full-size header set must build");
    let map = prepared.headers.as_ref().unwrap();
    assert_eq!(map.len(), webhook_notifier::headers::MAX_PREPARED_HEADERS);
    assert_eq!(map.get("x-h-0").unwrap().to_str().unwrap(), "0");
    assert_eq!(map.get("x-h-3071").unwrap().to_str().unwrap(), "3071");
}

#[test]
fn notification_carries_configured_header() {
    let cfg = config_with_headers(vec![("X-Token", "abc")]);
    let prepared = build(&cfg).unwrap();
    let note = prepare_notification(&prepared);
    assert_eq!(note.url, "http://example.com/hook");
    let map = note.headers.as_ref().unwrap();
    assert_eq!(map.get("X-Token").unwrap().to_str().unwrap(), "abc");
}

#[test]
fn notification_body_is_configured_body() {
    let cfg = config_with_headers(vec![]);
    let prepared = build(&cfg).unwrap();
    let note = prepare_notification(&prepared);
    assert_eq!(effective_body(&note), "ping");
}

#[test]
fn notification_body_empty_when_none_configured() {
    let cfg = NotifierConfig {
        url: String::from("http://example.com"),
        body: None,
        headers: None,
    };
    let prepared = build(&cfg).unwrap();
    let note = prepare_notification(&prepared);
    assert_eq!(effective_body(&note), "");
}

#[test]
fn notifications_are_independent() {
    let cfg = config_with_headers(vec![("X-Token", "abc")]);
    let prepared = build(&cfg).unwrap();
    let mut first = prepare_notification(&prepared);
    let second = prepare_notification(&prepared);
    first.headers.as_mut().unwrap().insert(
        http::header::HeaderName::from_bytes(b"x-token").unwrap(),
        http::header::HeaderValue::from_str("changed").unwrap(),
    );
    assert_eq!(
        second.headers.as_ref().unwrap().get("X-Token").unwrap().to_str().unwrap(),
        "abc"
    );
    assert_eq!(
        prepared.headers.as_ref().unwrap().get("X-Token").unwrap().to_str().unwrap(),
        "abc"
    );
}

#[test]
fn classify_success_statuses() {
    assert_eq!(classify_response(Some(200)), DeliveryOutcome::Succeeded(200));
    assert_eq!(classify_response(Some(204)), DeliveryOutcome::Succeeded(204));
    assert_eq!(classify_response(Some(299)), DeliveryOutcome::Succeeded(299));
}

#[test]
fn classify_failure_statuses() {
    assert_eq!(classify_response(Some(199)), DeliveryOutcome::RefusedStatus(199));
    assert_eq!(classify_response(Some(300)), DeliveryOutcome::RefusedStatus(300));
    assert_eq!(classify_response(Some(404)), DeliveryOutcome::RefusedStatus(404));
    assert_eq!(classify_response(Some(500)), DeliveryOutcome::RefusedStatus(500));
}

#[test]
fn classify_transport_failure() {
    assert_eq!(classify_response(None), DeliveryOutcome::TransportFailed);
}

#[test]
fn completion_is_terminal_in_one_step() {
    let ok = classify_response(Some(200));
    let refused = classify_response(Some(503));
    let lost = classify_response(None);
    assert!(outcome_is_success(&ok));
    assert!(!outcome_is_success(&refused));
    assert!(!outcome_is_success(&lost));
    assert_eq!(completion_state(&ok), TaskState::Succeeded);
    assert_eq!(completion_state(&refused), TaskState::Failed);
    assert_eq!(completion_state(&lost), TaskState::Failed);
}
