use prompt_harness::ProviderError;

#[test]
fn missing_env_var_names_the_variable() {
    match ProviderError::missing_env_var("ANTHROPIC_API_KEY") {
        ProviderError::Config { message, env_var } => {
            assert_eq!(message, "ANTHROPIC_API_KEY environment variable not set");
            assert_eq!(env_var.as_deref(), Some("ANTHROPIC_API_KEY"));
        }
        _ => panic!("expected a configuration error"),
    }
}

#[test]
fn network_error_keeps_its_message() {
    match ProviderError::network("request failed: timeout".to_string()) {
        ProviderError::Network { message } => assert_eq!(message, "request failed: timeout"),
        _ => panic!("expected a network error"),
    }
}

#[test]
fn api_errors_carry_status_and_type() {
    match ProviderError::api(429, "slow down".to_string()) {
        ProviderError::Api { status, message, error_type } => {
            assert_eq!(status, 429);
            assert_eq!(message, "slow down");
            assert!(error_type.is_none());
        }
        _ => panic!("expected an API error"),
    }
    match ProviderError::api_with_type(400, "bad".to_string(), "invalid_request_error".to_string()) {
        ProviderError::Api { status, message, error_type } => {
            assert_eq!(status, 400);
            assert_eq!(message, "bad");
            assert_eq!(error_type.as_deref(), Some("invalid_request_error"));
        }
        _ => panic!("expected an API error"),
    }
}

#[test]
fn parse_errors_carry_their_source() {
    match ProviderError::parse("no output".to_string()) {
        ProviderError::Parse { message, source } => {
            assert_eq!(message, "no output");
            assert!(source.is_none());
        }
        _ => panic!("expected a parse error"),
    }
    let json_error = serde_json::from_str::<u32>("not json").unwrap_err();
    match ProviderError::parse_with_source("bad json".to_string(), json_error) {
        ProviderError::Parse { message, source } => {
            assert_eq!(message, "bad json");
            assert!(source.is_some());
        }
        _ => panic!("expected a parse error"),
    }
}

#[test]
fn undecodable_response_quotes_detail_and_body() {
    match ProviderError::undecodable_response("expected value at line 1 column 1", "oops") {
        ProviderError::Parse { message, source } => {
            assert_eq!(
                message,
                "failed to parse response: expected value at line 1 column 1. Body: oops"
            );
            assert!(source.is_none());
        }
        _ => panic!("expected a parse error"),
    }
}

#[test]
fn errors_describe_themselves() {
    assert_eq!(
        ProviderError::missing_env_var("MISTRAL_API_KEY").to_string(),
        "configuration error: MISTRAL_API_KEY environment variable not set"
    );
    assert_eq!(
        ProviderError::api_with_type(429, "Rate limited".to_string(), "rate_limit_error".to_string())
            .to_string(),
        "API error (HTTP 429): Rate limited"
    );
    assert_eq!(
        prompt_harness::client::check_status(500, "oops").unwrap_err().to_string(),
        "API error (HTTP 500): oops"
    );
    assert_eq!(ProviderError::network("down".to_string()).to_string(), "network error: down");
    assert_eq!(ProviderError::parse("bad".to_string()).to_string(), "parse error: bad");
}

#[test]
fn send_and_read_failures_are_network_errors() {
    match ProviderError::request_failed("timeout: Global") {
        ProviderError::Network { message } => assert_eq!(message, "request failed: timeout: Global"),
        _ => panic!("expected a network error"),
    }
    match ProviderError::read_failed("connection reset") {
        ProviderError::Network { message } => {
            assert_eq!(message, "failed to read response: connection reset")
        }
        _ => panic!("expected a network error"),
    }
}
