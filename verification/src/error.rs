//! Error type of the library, with the HTTP status each variant stands for.

use vstd::prelude::*;
use crate::external::{
    json_error_display, json_error_text, parse_error_display, parse_error_text,
    request_error_display, request_error_text,
};
use crate::text::{concat, decimal, u64_text};

verus! {

/// Errors that can occur when using the Files.com API.
///
/// Each variant carries the context that helps to debug the failure.
#[derive(Debug)]
pub enum FilesError {
    /// HTTP request failed
    Request(reqwest::Error),
    /// Bad Request (400): invalid parameters or malformed request
    BadRequest { message: String, field: Option<String> },
    /// Authentication failed (401)
    AuthenticationFailed { message: String, auth_type: Option<String> },
    /// Forbidden (403): valid credentials but insufficient permissions
    Forbidden { message: String, resource: Option<String> },
    /// Not Found (404): the resource does not exist
    NotFound { message: String, resource_type: Option<String>, path: Option<String> },
    /// Conflict (409): resource already exists or state conflict
    Conflict { message: String, resource: Option<String> },
    /// Precondition Failed (412): a conditional request failed
    PreconditionFailed { message: String, condition: Option<String> },
    /// Unprocessable Entity (422): validation error
    UnprocessableEntity { message: String, field: Option<String>, value: Option<String> },
    /// Locked (423): the resource is locked
    Locked { message: String, resource: Option<String> },
    /// Rate Limited (429): too many requests
    RateLimited { message: String, retry_after: Option<u64> },
    /// Internal Server Error (500)
    InternalServerError { message: String, request_id: Option<String> },
    /// Service Unavailable (503)
    ServiceUnavailable { message: String, retry_after: Option<u64> },
    /// Any other API error, with its status code
    ApiError { code: u16, message: String, endpoint: Option<String> },
    /// Configuration error
    ConfigError(String),
    /// JSON serialization or deserialization error
    JsonError(serde_json::Error),
    /// JSON response that did not deserialize, with the path where it failed
    JsonPathError { path: String, source: serde_json::Error },
    /// I/O error (file operations)
    IoError(String),
    /// URL parsing error
    UrlParseError(url::ParseError),
}

/// Result type for Files.com operations.
pub type Result<T> = std::result::Result<T, FilesError>;

impl FilesError {
    /// The HTTP status code that an error stands for, if it stands for one.
    pub open spec fn spec_status_code(&self) -> Option<u16> {
        match self {
            FilesError::BadRequest { .. } => Some(400u16),
            FilesError::AuthenticationFailed { .. } => Some(401u16),
            FilesError::Forbidden { .. } => Some(403u16),
            FilesError::NotFound { .. } => Some(404u16),
            FilesError::Conflict { .. } => Some(409u16),
            FilesError::PreconditionFailed { .. } => Some(412u16),
            FilesError::UnprocessableEntity { .. } => Some(422u16),
            FilesError::Locked { .. } => Some(423u16),
            FilesError::RateLimited { .. } => Some(429u16),
            FilesError::InternalServerError { .. } => Some(500u16),
            FilesError::ServiceUnavailable { .. } => Some(503u16),
            FilesError::ApiError { code, .. } => Some(*code),
            _ => None,
        }
    }

    /// Errors that a later attempt of the same request may not meet: those that
    /// stand for status 429, 500, 502, 503 or 504.
    pub open spec fn spec_is_retryable(&self) -> bool {
        match self.spec_status_code() {
            Some(code) => code == 429 || code == 500 || code == 502 || code == 503 || code == 504,
            None => false,
        }
    }

    /// The retry-after hint of an error, in seconds.
    pub open spec fn spec_retry_after(&self) -> Option<u64> {
        match self {
            FilesError::RateLimited { retry_after, .. } => *retry_after,
            FilesError::ServiceUnavailable { retry_after, .. } => *retry_after,
            _ => None,
        }
    }

    /// The message of an error that carries one from the server or the caller.
    pub open spec fn spec_message(&self) -> Option<Seq<char>> {
        match self {
            FilesError::BadRequest { message, .. } => Some(message@),
            FilesError::AuthenticationFailed { message, .. } => Some(message@),
            FilesError::Forbidden { message, .. } => Some(message@),
            FilesError::NotFound { message, .. } => Some(message@),
            FilesError::Conflict { message, .. } => Some(message@),
            FilesError::PreconditionFailed { message, .. } => Some(message@),
            FilesError::UnprocessableEntity { message, .. } => Some(message@),
            FilesError::Locked { message, .. } => Some(message@),
            FilesError::RateLimited { message, .. } => Some(message@),
            FilesError::InternalServerError { message, .. } => Some(message@),
            FilesError::ServiceUnavailable { message, .. } => Some(message@),
            FilesError::ApiError { message, .. } => Some(message@),
            FilesError::ConfigError(message) => Some(message@),
            FilesError::IoError(message) => Some(message@),
            _ => None,
        }
    }

    /// Create a NotFound error with a message only.
    pub fn not_found<M: Into<String>>(message: M) -> (r: Self)
        ensures
            r matches FilesError::NotFound { message: m, resource_type: None, path: None }
                && call_ensures(M::into, (message,), m),
    {
        FilesError::NotFound { message: message.into(), resource_type: None, path: None }
    }

    /// Create a NotFound error for a resource type and path.
    pub fn not_found_resource<M: Into<String>, T: Into<String>, P: Into<String>>(
        message: M,
        resource_type: T,
        path: P,
    ) -> (r: Self)
        ensures
            r matches FilesError::NotFound { message: m, resource_type: Some(t), path: Some(p) }
                && call_ensures(M::into, (message,), m)
                && call_ensures(T::into, (resource_type,), t)
                && call_ensures(P::into, (path,), p),
    {
        FilesError::NotFound {
            message: message.into(),
            resource_type: Some(resource_type.into()),
            path: Some(path.into()),
        }
    }

    /// Create a BadRequest error with no field.
    pub fn bad_request<M: Into<String>>(message: M) -> (r: Self)
        ensures
            r matches FilesError::BadRequest { message: m, field: None }
                && call_ensures(M::into, (message,), m),
    {
        FilesError::BadRequest { message: message.into(), field: None }
    }

    /// Create a BadRequest error that names the offending field.
    pub fn bad_request_field<M: Into<String>, F: Into<String>>(message: M, field: F) -> (r: Self)
        ensures
            r matches FilesError::BadRequest { message: m, field: Some(f) }
                && call_ensures(M::into, (message,), m)
                && call_ensures(F::into, (field,), f),
    {
        FilesError::BadRequest { message: message.into(), field: Some(field.into()) }
    }

    /// Create an UnprocessableEntity error with the field and value that failed validation.
    pub fn validation_failed<M: Into<String>, F: Into<String>, V: Into<String>>(
        message: M,
        field: F,
        value: V,
    ) -> (r: Self)
        ensures
            r matches FilesError::UnprocessableEntity { message: m, field: Some(f), value: Some(v) }
                && call_ensures(M::into, (message,), m)
                && call_ensures(F::into, (field,), f)
                && call_ensures(V::into, (value,), v),
    {
        FilesError::UnprocessableEntity {
            message: message.into(),
            field: Some(field.into()),
            value: Some(value.into()),
        }
    }

    /// Create a RateLimited error with an optional retry-after hint.
    pub fn rate_limited<M: Into<String>>(message: M, retry_after: Option<u64>) -> (r: Self)
        ensures
            r matches FilesError::RateLimited { message: m, retry_after: ra }
                && ra == retry_after
                && call_ensures(M::into, (message,), m),
    {
        FilesError::RateLimited { message: message.into(), retry_after }
    }

    /// Add the resource type to a NotFound error; any other error is returned unchanged.
    pub fn with_resource_type<T: Into<String>>(self, resource_type: T) -> (r: Self)
        ensures
            match self {
                FilesError::NotFound { message, path, .. } => r matches FilesError::NotFound {
                    message: m2,
                    resource_type: Some(t),
                    path: p2,
                } && m2 == message && p2 == path && call_ensures(T::into, (resource_type,), t),
                _ => r == self,
            },
    {
        match self {
            FilesError::NotFound { message, path, .. } => FilesError::NotFound {
                message,
                resource_type: Some(resource_type.into()),
                path,
            },
            other => other,
        }
    }

    /// Add the path to a NotFound error; any other error is returned unchanged.
    pub fn with_path<P: Into<String>>(self, path: P) -> (r: Self)
        ensures
            match self {
                FilesError::NotFound { message, resource_type, .. } => r matches FilesError::NotFound {
                    message: m2,
                    resource_type: t2,
                    path: Some(p),
                } && m2 == message && t2 == resource_type && call_ensures(P::into, (path,), p),
                _ => r == self,
            },
    {
        match self {
            FilesError::NotFound { message, resource_type, .. } => FilesError::NotFound {
                message,
                resource_type,
                path: Some(path.into()),
            },
            other => other,
        }
    }

    /// Add the field to a BadRequest error; any other error is returned unchanged.
    pub fn with_field<F: Into<String>>(self, field: F) -> (r: Self)
        ensures
            match self {
                FilesError::BadRequest { message, .. } => r matches FilesError::BadRequest {
                    message: m2,
                    field: Some(f),
                } && m2 == message && call_ensures(F::into, (field,), f),
                _ => r == self,
            },
    {
        match self {
            FilesError::BadRequest { message, .. } => FilesError::BadRequest {
                message,
                field: Some(field.into()),
            },
            other => other,
        }
    }

    /// The HTTP status code of an API error, if it is one.
    pub fn status_code(&self) -> (r: Option<u16>)
        ensures
            r == self.spec_status_code(),
    {
        match self {
            FilesError::BadRequest { .. } => Some(400),
            FilesError::AuthenticationFailed { .. } => Some(401),
            FilesError::Forbidden { .. } => Some(403),
            FilesError::NotFound { .. } => Some(404),
            FilesError::Conflict { .. } => Some(409),
            FilesError::PreconditionFailed { .. } => Some(412),
            FilesError::UnprocessableEntity { .. } => Some(422),
            FilesError::Locked { .. } => Some(423),
            FilesError::RateLimited { .. } => Some(429),
            FilesError::InternalServerError { .. } => Some(500),
            FilesError::ServiceUnavailable { .. } => Some(503),
            FilesError::ApiError { code, .. } => Some(*code),
            _ => None,
        }
    }

    /// Whether a later attempt of the same request may succeed.
    pub fn is_retryable(&self) -> (r: bool)
        ensures
            r == self.spec_is_retryable(),
    {
        match self.status_code() {
            Some(code) => code == 429 || code == 500 || code == 502 || code == 503 || code == 504,
            None => false,
        }
    }

    /// The retry-after hint, in seconds, if the error carries one.
    pub fn retry_after(&self) -> (r: Option<u64>)
        ensures
            r == self.spec_retry_after(),
    {
        match self {
            FilesError::RateLimited { retry_after, .. } => *retry_after,
            FilesError::ServiceUnavailable { retry_after, .. } => *retry_after,
            _ => None,
        }
    }
}

} // verus!

verus! {

impl FilesError {
    /// The human-readable description of the error, as its `Display` writes it.
    pub open spec fn spec_text(&self) -> Seq<char> {
        match self {
            FilesError::Request(e) => "HTTP request failed: "@ + request_error_display(*e),
            FilesError::BadRequest { message, .. } => "Bad Request (400): "@ + message@,
            FilesError::AuthenticationFailed { message, .. } => "Authentication failed (401): "@ + message@,
            FilesError::Forbidden { message, .. } => "Forbidden (403): "@ + message@,
            FilesError::NotFound { message, .. } => "Not Found (404): "@ + message@,
            FilesError::Conflict { message, .. } => "Conflict (409): "@ + message@,
            FilesError::PreconditionFailed { message, .. } => "Precondition Failed (412): "@ + message@,
            FilesError::UnprocessableEntity { message, .. } => "Unprocessable Entity (422): "@ + message@,
            FilesError::Locked { message, .. } => "Locked (423): "@ + message@,
            FilesError::RateLimited { message, .. } => "Rate Limited (429): "@ + message@,
            FilesError::InternalServerError { message, .. } => "Internal Server Error (500): "@ + message@,
            FilesError::ServiceUnavailable { message, .. } => "Service Unavailable (503): "@ + message@,
            FilesError::ApiError { code, message, .. } => "API error ("@ + decimal(*code as nat) + "): "@ + message@,
            FilesError::ConfigError(message) => "Configuration error: "@ + message@,
            FilesError::JsonError(e) => "JSON error: "@ + json_error_display(*e),
            FilesError::JsonPathError { path, source } => "JSON error at "@ + path@ + ": "@ + json_error_display(*source),
            FilesError::IoError(message) => "I/O error: "@ + message@,
            FilesError::UrlParseError(e) => "URL parse error: "@ + parse_error_display(*e),
        }
    }

    /// The human-readable description of the error.
    pub fn to_string(&self) -> (s: String)
        ensures
            s@ == self.spec_text(),
    {
        match self {
            FilesError::Request(e) => {
                concat("HTTP request failed: ", request_error_text(e).as_str())
            },
            FilesError::BadRequest { message, .. } => concat("Bad Request (400): ", message.as_str()),
            FilesError::AuthenticationFailed { message, .. } => concat("Authentication failed (401): ", message.as_str()),
            FilesError::Forbidden { message, .. } => concat("Forbidden (403): ", message.as_str()),
            FilesError::NotFound { message, .. } => concat("Not Found (404): ", message.as_str()),
            FilesError::Conflict { message, .. } => concat("Conflict (409): ", message.as_str()),
            FilesError::PreconditionFailed { message, .. } => concat("Precondition Failed (412): ", message.as_str()),
            FilesError::UnprocessableEntity { message, .. } => concat("Unprocessable Entity (422): ", message.as_str()),
            FilesError::Locked { message, .. } => concat("Locked (423): ", message.as_str()),
            FilesError::RateLimited { message, .. } => concat("Rate Limited (429): ", message.as_str()),
            FilesError::InternalServerError { message, .. } => concat("Internal Server Error (500): ", message.as_str()),
            FilesError::ServiceUnavailable { message, .. } => concat("Service Unavailable (503): ", message.as_str()),
            FilesError::ApiError { code, message, .. } => {
                let head = concat("API error (", u64_text(*code as u64).as_str());
                let head = concat(head.as_str(), "): ");
                let s = concat(head.as_str(), message.as_str());
                proof { assert(s@ =~= "API error ("@ + decimal(*code as nat) + "): "@ + message@); }
                s
            },
            FilesError::ConfigError(message) => concat("Configuration error: ", message.as_str()),
            FilesError::JsonError(e) => {
                concat("JSON error: ", json_error_text(e).as_str())
            },
            FilesError::JsonPathError { path, source } => {
                let head = concat("JSON error at ", path.as_str());
                let head = concat(head.as_str(), ": ");
                concat(head.as_str(), json_error_text(source).as_str())
            },
            FilesError::IoError(message) => concat("I/O error: ", message.as_str()),
            FilesError::UrlParseError(e) => {
                concat("URL parse error: ", parse_error_text(e).as_str())
            },
        }
    }
}

} // verus!

verus! {

impl From<reqwest::Error> for FilesError {
    fn from(e: reqwest::Error) -> (r: Self) {
        FilesError::Request(e)
    }
}

impl vstd::std_specs::convert::FromSpecImpl<reqwest::Error> for FilesError {
    open spec fn obeys_from_spec() -> bool {
        true
    }

    open spec fn from_spec(e: reqwest::Error) -> FilesError {
        FilesError::Request(e)
    }
}

impl From<serde_json::Error> for FilesError {
    fn from(e: serde_json::Error) -> (r: Self) {
        FilesError::JsonError(e)
    }
}

impl vstd::std_specs::convert::FromSpecImpl<serde_json::Error> for FilesError {
    open spec fn obeys_from_spec() -> bool {
        true
    }

    open spec fn from_spec(e: serde_json::Error) -> FilesError {
        FilesError::JsonError(e)
    }
}

impl From<url::ParseError> for FilesError {
    fn from(e: url::ParseError) -> (r: Self) {
        FilesError::UrlParseError(e)
    }
}

impl vstd::std_specs::convert::FromSpecImpl<url::ParseError> for FilesError {
    open spec fn obeys_from_spec() -> bool {
        true
    }

    open spec fn from_spec(e: url::ParseError) -> FilesError {
        FilesError::UrlParseError(e)
    }
}

} // verus!
