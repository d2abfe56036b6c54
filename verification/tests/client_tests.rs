use files_sdk::client::{
    error_for_status, error_message, handle_response, FilesClientBuilder, Method, RequestBody,
    DEFAULT_BASE_URL, USER_AGENT,
};
use files_sdk::retry::{retry_class, RetryClass};
use files_sdk::{FilesClient, FilesError};
use std::time::Duration;

#[test]
fn test_builder_default() {
    let builder = FilesClientBuilder::default();
    assert_eq!(
        builder.base_url,
        "https://app.files.com/api/rest/v1".to_string()
    );
    assert_eq!(builder.timeout, Duration::from_secs(60));
}

#[test]
fn test_builder_custom() {
    let builder = FilesClientBuilder::default()
        .api_key("test-key")
        .base_url("https://custom.example.com")
        .timeout(Duration::from_secs(120));

    assert_eq!(builder.api_key, Some("test-key".to_string()));
    assert_eq!(builder.base_url, "https://custom.example.com");
    assert_eq!(builder.timeout, Duration::from_secs(120));
}

#[test]
fn test_builder_missing_api_key() {
    let result = FilesClientBuilder::default().build();
    assert!(result.is_err());
    assert!(matches!(result.unwrap_err(), FilesError::ConfigError(_)));
}

#[test]
fn test_builder_success() {
    let result = FilesClientBuilder::default().api_key("test-key").build();
    assert!(result.is_ok());
}

#[test]
fn builder_defaults_of_retries_and_rate() {
    let builder = FilesClient::builder();
    assert_eq!(builder.api_key, None);
    assert_eq!(builder.base_url, DEFAULT_BASE_URL);
    assert_eq!(builder.max_retries, 3);
    assert_eq!(builder.retry_base_delay, Duration::from_secs(1));
    assert_eq!(builder.rate_limit, None);
}

#[test]
fn builder_setters_change_only_their_field() {
    let builder = FilesClientBuilder::default()
        .max_retries(7)
        .retry_base_delay(Duration::from_millis(250))
        .rate_limit(12);
    assert_eq!(builder.max_retries, 7);
    assert_eq!(builder.retry_base_delay, Duration::from_millis(250));
    assert_eq!(builder.rate_limit, Some(12));
    assert_eq!(builder.api_key, None);
    assert_eq!(builder.base_url, DEFAULT_BASE_URL);
    assert_eq!(builder.timeout, Duration::from_secs(60));
}

#[test]
fn missing_api_key_message() {
    match FilesClientBuilder::default().build() {
        Err(FilesError::ConfigError(m)) => assert_eq!(m, "API key is required"),
        _ => panic!("expected a configuration error"),
    }
}

#[test]
fn built_client_keeps_key_and_url() {
    let client = FilesClient::builder()
        .api_key("k-1")
        .base_url("https://example.test/api")
        .build()
        .unwrap();
    assert_eq!(client.api_key(), "k-1");
    assert_eq!(client.base_url(), "https://example.test/api");
}

#[test]
fn rate_limiter_only_for_nonzero_rates() {
    let limited = FilesClient::builder().api_key("k").rate_limit(5).build().unwrap();
    assert!(limited.rate_limiter().is_some());
    let unlimited = FilesClient::builder().api_key("k").build().unwrap();
    assert!(unlimited.rate_limiter().is_none());
    let zero = FilesClient::builder().api_key("k").rate_limit(0).build().unwrap();
    assert!(zero.rate_limiter().is_none());
    // rates beyond what a 32-bit quota holds are capped, not wrapped
    let capped = FilesClient::builder().api_key("k").rate_limit(1u64 << 32).build().unwrap();
    assert!(capped.rate_limiter().is_some());
}

#[test]
fn build_checked_refuses_too_long_base_delay() {
    let too_long = FilesClient::builder()
        .api_key("k")
        .retry_base_delay(Duration::from_secs(120));
    assert!(!too_long.check_retry_bounds());
    assert!(too_long.build_checked().is_none());
    let no_retries = FilesClient::builder()
        .api_key("k")
        .max_retries(0)
        .retry_base_delay(Duration::from_secs(120));
    assert!(matches!(no_retries.build_checked(), Some(Ok(_))));
    let no_key = FilesClient::builder().retry_base_delay(Duration::from_secs(120));
    assert!(matches!(no_key.build_checked(), Some(Err(FilesError::ConfigError(_)))));
    let no_key = FilesClient::builder().retry_base_delay(Duration::from_secs(120));
    assert!(matches!(no_key.build(), Err(FilesError::ConfigError(_))));
}

#[test]
fn request_url_and_headers() {
    let client = FilesClient::builder()
        .api_key("secret")
        .base_url("https://h/api")
        .build()
        .unwrap();
    assert_eq!(client.request_url("/files/a"), "https://h/api/files/a");
    let h = client.request_headers(false);
    assert_eq!(
        h,
        vec![
            ("X-FilesAPI-Key".to_string(), "secret".to_string()),
            ("User-Agent".to_string(), USER_AGENT.to_string()),
        ]
    );
    let h = client.request_headers(true);
    assert_eq!(h.len(), 3);
    assert_eq!(h[2], ("Content-Type".to_string(), "application/json".to_string()));
    assert_eq!(USER_AGENT, "Files.com Rust SDK 0.3.0");
}

#[test]
fn prepare_json_request() {
    let client = FilesClient::builder().api_key("s").base_url("https://h").build().unwrap();
    let r = client.prepare(Method::Post, "/groups", RequestBody::Json("{}".to_string()));
    assert_eq!(r.method, Method::Post);
    assert_eq!(r.url, "https://h/groups");
    assert_eq!(r.headers.len(), 3);
    let r = client.prepare(Method::Get, "/groups", RequestBody::Empty);
    assert_eq!(r.headers.len(), 2);
}

#[test]
fn response_no_content_is_null() {
    let v = handle_response(204, "").unwrap();
    assert!(v.is_null());
}

#[test]
fn response_success_is_parsed() {
    let v = handle_response(200, "{\"id\": 5}").unwrap();
    assert_eq!(v["id"], 5);
}

#[test]
fn response_invalid_json_reports_path() {
    match handle_response(200, "{\"id\": }") {
        Err(FilesError::JsonPathError { .. }) => {}
        other => panic!("unexpected {:?}", other),
    }
}

#[test]
fn response_errors_by_status() {
    match handle_response(404, "{\"error\": \"missing\"}") {
        Err(FilesError::NotFound { message, resource_type: None, path: None }) => {
            assert_eq!(message, "missing")
        }
        other => panic!("unexpected {:?}", other),
    }
    match handle_response(418, "{\"message\": \"teapot\"}") {
        Err(FilesError::ApiError { code, message, endpoint: None }) => {
            assert_eq!(code, 418);
            assert_eq!(message, "teapot");
        }
        other => panic!("unexpected {:?}", other),
    }
    match handle_response(500, "plain text") {
        Err(FilesError::InternalServerError { message, .. }) => assert_eq!(message, "plain text"),
        other => panic!("unexpected {:?}", other),
    }
    match handle_response(429, "{}") {
        Err(e) => {
            assert!(e.is_retryable());
            assert_eq!(e.status_code(), Some(429));
        }
        Ok(_) => panic!("expected an error"),
    }
}

#[test]
fn error_message_sources() {
    assert_eq!(error_message("{\"error\": \"e\", \"message\": \"m\"}"), "e");
    assert_eq!(error_message("{\"message\": \"m\"}"), "m");
    assert_eq!(error_message("{\"error\": 3}"), "{\"error\": 3}");
    assert_eq!(error_message("not json"), "not json");
}

#[test]
fn status_errors_carry_status() {
    for code in [400u16, 401, 403, 404, 409, 412, 418, 422, 423, 429, 500, 502, 503, 504] {
        let e = error_for_status(code, "m".to_string());
        assert_eq!(e.status_code(), Some(code));
        assert_eq!(e.is_retryable(), [429, 500, 502, 503, 504].contains(&code));
        assert_eq!(e.retry_after(), None);
    }
}

#[test]
fn retried_statuses() {
    for code in [429u16, 500, 502, 503, 504] {
        assert_eq!(retry_class(code), RetryClass::Transient);
    }
    for code in [400u16, 404, 408, 501, 505, 302] {
        assert_eq!(retry_class(code), RetryClass::Fatal);
    }
    assert_eq!(retry_class(200), RetryClass::Done);
    assert_eq!(retry_class(204), RetryClass::Done);
}
