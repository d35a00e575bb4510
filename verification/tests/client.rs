use prompt_harness::client::{
    check_status, create_agent, create_default_agent, format_ureq_error, truncate_body,
    ClientConfig, HttpError,
};
use prompt_harness::ProviderError;
use std::time::Duration;

#[test]
fn check_status_accepts_success_codes() {
    assert!(check_status(200, "ok").is_ok());
    assert!(check_status(204, "").is_ok());
    assert!(check_status(399, "redirect-ish").is_ok());
}

#[test]
fn check_status_rejects_client_and_server_errors() {
    match check_status(400, "bad request") {
        Err(ProviderError::Api { status, message, error_type }) => {
            assert_eq!(status, 400);
            assert_eq!(message, "bad request");
            assert!(error_type.is_none());
        }
        _ => panic!("expected an API error"),
    }
    match check_status(503, "{\"error\":\"overloaded\"}") {
        Err(ProviderError::Api { status, message, .. }) => {
            assert_eq!(status, 503);
            assert_eq!(message, "{\"error\":\"overloaded\"}");
        }
        _ => panic!("expected an API error"),
    }
}

#[test]
fn truncate_body_keeps_short_bodies() {
    assert_eq!(truncate_body("hello", 5), "hello");
    assert_eq!(truncate_body("hello", 100), "hello");
    assert_eq!(truncate_body("", 0), "");
}

#[test]
fn truncate_body_cuts_long_bodies() {
    assert_eq!(truncate_body("hello world", 5), "hello...[truncated]");
    assert_eq!(truncate_body("abc", 0), "...[truncated]");
}

#[test]
fn truncate_body_counts_bytes_not_characters() {
    // "é" takes two bytes: four bytes in all, cut after the first "é".
    assert_eq!(truncate_body("éé", 2), "é...[truncated]");
    assert_eq!(truncate_body("éé", 4), "éé");
}

#[test]
fn default_config_times_out_after_two_minutes() {
    let config = ClientConfig::default();
    assert_eq!(config.timeout, Duration::from_secs(120));
    assert_eq!(config.timeout.as_secs(), 120);
}

#[test]
fn agents_carry_their_configuration() {
    let agent = create_default_agent();
    assert_eq!(agent.config().timeouts().global, Some(Duration::from_secs(120)));
    assert!(!agent.config().http_status_as_error());
    let other = create_agent(&ClientConfig { timeout: Duration::from_secs(5) });
    assert_eq!(other.config().timeouts().global, Some(Duration::from_secs(5)));
    assert!(!other.config().http_status_as_error());
}

#[test]
fn format_ureq_error_words_each_kind() {
    assert_eq!(format_ureq_error(&HttpError::Timeout("Global".to_string())), "timeout: Global");
    assert_eq!(
        format_ureq_error(&HttpError::Io("connection refused".to_string())),
        "IO error: connection refused"
    );
    assert_eq!(format_ureq_error(&HttpError::StatusCode(404)), "HTTP status error: 404");
    assert_eq!(format_ureq_error(&HttpError::StatusCode(0)), "HTTP status error: 0");
    assert_eq!(format_ureq_error(&HttpError::StatusCode(65535)), "HTTP status error: 65535");
    assert_eq!(format_ureq_error(&HttpError::Other("host not found".to_string())), "host not found");
}
