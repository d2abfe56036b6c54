use files_sdk::FilesError;

#[test]
fn test_not_found_with_context() {
    let error = FilesError::not_found_resource("File not found", "file", "/path/to/file.txt");
    assert!(matches!(error, FilesError::NotFound { .. }));
    assert!(error.to_string().contains("Not Found"));
}

#[test]
fn test_bad_request_with_field() {
    let error = FilesError::bad_request_field("Invalid value", "username");
    if let FilesError::BadRequest { field, .. } = error {
        assert_eq!(field, Some("username".to_string()));
    } else {
        panic!("Expected BadRequest error");
    }
}

#[test]
fn test_validation_failed() {
    let error = FilesError::validation_failed("Invalid email format", "email", "not-an-email");
    if let FilesError::UnprocessableEntity { field, value, .. } = error {
        assert_eq!(field, Some("email".to_string()));
        assert_eq!(value, Some("not-an-email".to_string()));
    } else {
        panic!("Expected UnprocessableEntity error");
    }
}

#[test]
fn test_rate_limited_with_retry() {
    let error = FilesError::rate_limited("Too many requests", Some(60));
    assert_eq!(error.retry_after(), Some(60));
    assert!(error.is_retryable());
}

#[test]
fn test_status_code_extraction() {
    assert_eq!(FilesError::not_found("test").status_code(), Some(404));
    assert_eq!(FilesError::bad_request("test").status_code(), Some(400));
    assert_eq!(
        FilesError::rate_limited("test", None).status_code(),
        Some(429)
    );
}

#[test]
fn test_is_retryable() {
    assert!(FilesError::rate_limited("test", None).is_retryable());
    assert!(
        FilesError::InternalServerError {
            message: "test".to_string(),
            request_id: None
        }
        .is_retryable()
    );
    assert!(!FilesError::not_found("test").is_retryable());
}

#[test]
fn test_builder_pattern() {
    let error = FilesError::not_found("File not found")
        .with_resource_type("file")
        .with_path("/test.txt");

    if let FilesError::NotFound {
        resource_type,
        path,
        ..
    } = error
    {
        assert_eq!(resource_type, Some("file".to_string()));
        assert_eq!(path, Some("/test.txt".to_string()));
    } else {
        panic!("Expected NotFound error");
    }
}

#[test]
fn error_texts() {
    assert_eq!(FilesError::not_found("gone").to_string(), "Not Found (404): gone");
    assert_eq!(FilesError::bad_request("bad").to_string(), "Bad Request (400): bad");
    assert_eq!(
        FilesError::ApiError { code: 418, message: "teapot".to_string(), endpoint: None }.to_string(),
        "API error (418): teapot"
    );
    assert_eq!(FilesError::ConfigError("x".to_string()).to_string(), "Configuration error: x");
    assert_eq!(FilesError::IoError("disk".to_string()).to_string(), "I/O error: disk");
}

#[test]
fn retry_after_only_on_retryable() {
    let e = FilesError::ServiceUnavailable { message: "m".to_string(), retry_after: Some(5) };
    assert_eq!(e.retry_after(), Some(5));
    assert!(e.is_retryable());
    assert_eq!(e.status_code(), Some(503));
    assert_eq!(FilesError::not_found("m").retry_after(), None);
    assert_eq!(FilesError::ConfigError("c".to_string()).status_code(), None);
}

#[test]
fn context_setters_ignore_other_variants() {
    let e = FilesError::bad_request("m").with_resource_type("file").with_field("name");
    match e {
        FilesError::BadRequest { field, .. } => assert_eq!(field, Some("name".to_string())),
        _ => panic!("Expected BadRequest error"),
    }
}

#[test]
fn outside_errors_convert() {
    let json_err = serde_json::from_str::<serde_json::Value>("{").unwrap_err();
    let text = json_err.to_string();
    let e: FilesError = json_err.into();
    assert!(matches!(e, FilesError::JsonError(_)));
    assert_eq!(e.to_string(), format!("JSON error: {}", text));
    let parse_err = url::Url::parse("not a url").unwrap_err();
    let text = parse_err.to_string();
    let e: FilesError = parse_err.into();
    assert!(matches!(e, FilesError::UrlParseError(_)));
    assert_eq!(e.to_string(), format!("URL parse error: {}", text));
    assert_eq!(e.status_code(), None);
    assert!(!e.is_retryable());
}

#[test]
fn gateway_errors_are_retryable() {
    let e = FilesError::ApiError { code: 502, message: "Bad Gateway".to_string(), endpoint: None };
    assert!(e.is_retryable());
    let e = FilesError::ApiError { code: 504, message: "Gateway Timeout".to_string(), endpoint: None };
    assert!(e.is_retryable());
    let e = FilesError::ApiError { code: 501, message: "Not Implemented".to_string(), endpoint: None };
    assert!(!e.is_retryable());
    assert!(!FilesError::ConfigError("c".to_string()).is_retryable());
}
