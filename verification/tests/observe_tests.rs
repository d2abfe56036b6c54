use files_sdk::interceptors::{
    failure_line, request_header_line, request_header_lines, request_line, response_header_line,
    response_header_lines, response_line, LoggingInterceptor, MetricsInterceptor, RequestMetrics,
};
use files_sdk::progress::Progress;
use std::time::Duration;

#[test]
fn test_logging_interceptor_creation() {
    let _interceptor = LoggingInterceptor::new();
    let _interceptor_with_headers = LoggingInterceptor::with_headers();
}

#[test]
fn test_metrics_interceptor_creation() {
    let _interceptor = MetricsInterceptor::new(|_metrics| {
        // No-op for test
    });
}

#[test]
fn logging_settings() {
    assert!(!LoggingInterceptor::new().include_headers);
    assert!(LoggingInterceptor::with_headers().include_headers);
    assert!(!LoggingInterceptor::default().include_headers);
}

#[test]
fn log_lines() {
    assert_eq!(request_line("GET", "https://h/x"), "[files-sdk] GET https://h/x");
    assert_eq!(
        response_line("GET", "https://h/x", "200 OK", "1.5ms"),
        "[files-sdk] GET https://h/x - 200 OK (1.5ms)"
    );
    assert_eq!(
        failure_line("POST", "u", "timed out", "2s"),
        "[files-sdk] POST u - ERROR: timed out (2s)"
    );
}

#[test]
fn api_key_is_redacted() {
    assert_eq!(
        request_header_line("x-filesapi-key", Some("secret")),
        Some("  x-filesapi-key: [REDACTED]".to_string())
    );
    assert_eq!(
        request_header_line("x-filesapi-key", None),
        Some("  x-filesapi-key: [REDACTED]".to_string())
    );
    assert_eq!(request_header_line("accept", Some("*/*")), Some("  accept: */*".to_string()));
    assert_eq!(request_header_line("accept", None), None);
    assert_eq!(
        response_header_line("x-filesapi-key", Some("v")),
        Some("  x-filesapi-key: v".to_string())
    );
}

#[test]
fn metrics_of_outcomes() {
    let m = RequestMetrics::of_outcome("GET".to_string(), "u".to_string(), Ok(200), Duration::from_millis(5));
    assert!(m.success);
    assert_eq!(m.status_code, Some(200));
    assert_eq!(m.error, None);
    assert_eq!(m.duration, Duration::from_millis(5));
    let m = RequestMetrics::of_outcome("GET".to_string(), "u".to_string(), Ok(404), Duration::from_millis(5));
    assert!(!m.success);
    let m = RequestMetrics::of_outcome(
        "PUT".to_string(),
        "u".to_string(),
        Err("refused".to_string()),
        Duration::from_secs(1),
    );
    assert!(!m.success);
    assert_eq!(m.status_code, None);
    assert_eq!(m.error, Some("refused".to_string()));
    assert_eq!(m.method, "PUT");
}

#[test]
fn metrics_callback_is_kept() {
    let i = MetricsInterceptor::new(|m: RequestMetrics| assert!(m.success));
    (i.callback())(RequestMetrics::of_outcome("GET".to_string(), "u".to_string(), Ok(204), Duration::from_secs(0)));
}

#[test]
fn progress_snapshot() {
    let p = Progress::new(7, Some(9));
    assert_eq!(p.bytes_transferred, 7);
    assert_eq!(p.total_bytes, Some(9));
    assert_eq!(Progress::new(3, None).total_bytes, None);
}

#[test]
fn header_maps_are_logged_with_the_key_redacted() {
    let mut headers = http::HeaderMap::new();
    headers.insert("X-FilesAPI-Key", http::HeaderValue::from_static("secret"));
    headers.insert("accept", http::HeaderValue::from_static("*/*"));
    let mut lines = request_header_lines(&headers);
    lines.sort();
    assert_eq!(lines, vec!["  accept: */*".to_string(), "  x-filesapi-key: [REDACTED]".to_string()]);
    let mut lines = response_header_lines(&headers);
    lines.sort();
    assert_eq!(lines, vec!["  accept: */*".to_string(), "  x-filesapi-key: secret".to_string()]);
    assert!(request_header_lines(&http::HeaderMap::new()).is_empty());
}
