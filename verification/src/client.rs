//! The client core: builder and configuration, request preparation, and the
//! mapping of HTTP responses to results.

use vstd::prelude::*;
use std::sync::Arc;
use std::time::Duration;
use crate::error::FilesError;
use crate::external::{
    backoff_bounds, client_timeout, duration_as_nanos, duration_from_secs, duration_nanos,
    exponential_backoff, finish_middleware, http_client_with_timeout, json_document,
    json_error_path, json_member_text, json_null, json_read_error, limiter_per_second,
    limiter_quota, middleware_builder, middleware_client, middleware_retry_policies,
    read_json_member_text, read_json_tracking_path, request_error_display, request_error_text,
    with_retry_middleware, RequestLimiter,
};
use crate::retry::{spec_retry_class, RetryClass};
use crate::text::concat;

verus! {

/// User-Agent header value sent with every API request.
pub const USER_AGENT: &'static str = "Files.com Rust SDK 0.3.0";

/// The API endpoint used when no other base URL is configured.
pub const DEFAULT_BASE_URL: &'static str = "https://app.files.com/api/rest/v1";

/// The longest wait between two retries, in seconds.
pub const MAX_RETRY_DELAY_SECS: u64 = 60;

/// Builder for constructing a `FilesClient` with custom configuration.
#[derive(Debug, Clone)]
pub struct FilesClientBuilder {
    /// API key (required before `build`)
    pub api_key: Option<String>,
    /// Base URL of the API
    pub base_url: String,
    /// Maximum duration of a request
    pub timeout: Duration,
    /// Maximum number of retries of transient failures (0 disables retrying)
    pub max_retries: u32,
    /// Base delay of the exponential backoff between retries
    pub retry_base_delay: Duration,
    /// Client-side limit of requests per second
    pub rate_limit: Option<u64>,
}

impl FilesClientBuilder {
    /// The state of a builder before any setter is called.
    pub open spec fn is_default(&self) -> bool {
        &&& self.api_key is None
        &&& self.base_url@ == DEFAULT_BASE_URL@
        &&& duration_nanos(self.timeout) == 60 * 1_000_000_000
        &&& self.max_retries == 3
        &&& duration_nanos(self.retry_base_delay) == 1_000_000_000
        &&& self.rate_limit is None
    }

    /// Whether `build` may be called: the retry base delay must not exceed the
    /// longest delay between retries when retrying is enabled.
    pub open spec fn retry_bounds_ok(&self) -> bool {
        self.max_retries > 0 ==> duration_nanos(self.retry_base_delay)
            <= MAX_RETRY_DELAY_SECS * 1_000_000_000
    }
}

impl Default for FilesClientBuilder {
    fn default() -> (b: Self)
        ensures
            b.is_default(),
    {
        FilesClientBuilder {
            api_key: None,
            base_url: String::from(DEFAULT_BASE_URL),
            timeout: duration_from_secs(60),
            max_retries: 3,
            retry_base_delay: duration_from_secs(1),
            rate_limit: None,
        }
    }
}

impl FilesClientBuilder {
    /// Sets the API key for authentication.
    pub fn api_key<S: Into<String>>(self, api_key: S) -> (b: Self)
        ensures
            b.api_key matches Some(k) && call_ensures(S::into, (api_key,), k),
            b.base_url == self.base_url,
            b.timeout == self.timeout,
            b.max_retries == self.max_retries,
            b.retry_base_delay == self.retry_base_delay,
            b.rate_limit == self.rate_limit,
    {
        let mut b = self;
        b.api_key = Some(api_key.into());
        b
    }

    /// Sets a custom base URL for the API.
    pub fn base_url<S: Into<String>>(self, base_url: S) -> (b: Self)
        ensures
            call_ensures(S::into, (base_url,), b.base_url),
            b.api_key == self.api_key,
            b.timeout == self.timeout,
            b.max_retries == self.max_retries,
            b.retry_base_delay == self.retry_base_delay,
            b.rate_limit == self.rate_limit,
    {
        let mut b = self;
        b.base_url = base_url.into();
        b
    }

    /// Sets the request timeout duration.
    pub fn timeout(self, timeout: Duration) -> (b: Self)
        ensures
            b == (FilesClientBuilder { timeout, ..self }),
    {
        let mut b = self;
        b.timeout = timeout;
        b
    }

    /// Sets the maximum number of retry attempts for transient errors
    /// (429, 500, 502, 503, 504); 0 disables retrying.
    pub fn max_retries(self, max_retries: u32) -> (b: Self)
        ensures
            b == (FilesClientBuilder { max_retries, ..self }),
    {
        let mut b = self;
        b.max_retries = max_retries;
        b
    }

    /// Sets the base delay of the exponential backoff between retries.
    pub fn retry_base_delay(self, delay: Duration) -> (b: Self)
        ensures
            b == (FilesClientBuilder { retry_base_delay: delay, ..self }),
    {
        let mut b = self;
        b.retry_base_delay = delay;
        b
    }

    /// Sets client-side rate limiting in requests per second.
    pub fn rate_limit(self, requests_per_second: u64) -> (b: Self)
        ensures
            b == (FilesClientBuilder { rate_limit: Some(requests_per_second), ..self }),
    {
        let mut b = self;
        b.rate_limit = Some(requests_per_second);
        b
    }

    /// Whether the retry bounds allow `build`; the test that `retry_bounds_ok` states.
    pub fn check_retry_bounds(&self) -> (ok: bool)
        ensures
            ok == self.retry_bounds_ok(),
    {
        self.max_retries == 0
            || duration_as_nanos(&self.retry_base_delay) <= (MAX_RETRY_DELAY_SECS as u128) * 1_000_000_000
    }

    /// The requests per second that a configured rate allows: the rate, capped at
    /// the largest quota the limiter takes (`u32::MAX`).
    pub open spec fn spec_quota(rate: u64) -> nat {
        if rate > u32::MAX { u32::MAX as nat } else { rate as nat }
    }

    /// The retry bounds the builder's settings describe: with retries enabled,
    /// one exponential backoff from the base delay up to `MAX_RETRY_DELAY_SECS`
    /// with at most `max_retries` retries; none otherwise.
    pub open spec fn spec_retry_bounds(&self) -> Seq<(nat, nat, Option<u32>)> {
        if self.max_retries > 0 {
            seq![(duration_nanos(self.retry_base_delay), (MAX_RETRY_DELAY_SECS * 1_000_000_000) as nat,
                Some(self.max_retries))]
        } else {
            Seq::empty()
        }
    }

    /// `client` is what the builder's settings describe, with the API key `key`,
    /// sending its requests with the HTTP client `http`.
    pub open spec fn built_from(&self, key: String, http: reqwest::Client, client: FilesClient) -> bool {
        &&& client.spec_api_key() == key@
        &&& client.spec_base_url() == self.base_url@
        &&& middleware_client(client.spec_http()) == http
        &&& client.spec_retry_bounds() == self.spec_retry_bounds()
        &&& match self.rate_limit {
            Some(rate) if rate != 0 => client.spec_rate_limit() == Some(Self::spec_quota(rate)),
            _ => client.spec_rate_limit() is None,
        }
    }

    /// Finishes building once the underlying HTTP client has been built (or failed to be).
    pub fn build_with(self, http: core::result::Result<reqwest::Client, reqwest::Error>)
        -> (r: crate::Result<FilesClient>)
        requires
            (self.api_key is Some && http is Ok) ==> self.retry_bounds_ok(),
        ensures
            self.api_key is None ==> (r matches Err(FilesError::ConfigError(m))
                && m@ == "API key is required"@),
            self.api_key matches Some(key) ==> match http {
                Ok(h) => r matches Ok(c) && self.built_from(key, h, c),
                Err(e) => r matches Err(FilesError::ConfigError(m))
                    && m@ == "Failed to build HTTP client: "@ + request_error_display(e),
            },
    {
        let api_key = match self.api_key {
            Some(k) => k,
            None => {
                return Err(FilesError::ConfigError(String::from("API key is required")));
            },
        };
        let reqwest_client = match http {
            Ok(c) => c,
            Err(e) => {
                let m = concat("Failed to build HTTP client: ", request_error_text(&e).as_str());
                return Err(FilesError::ConfigError(m));
            },
        };
        let ghost h = reqwest_client;
        let mut client_builder = middleware_builder(reqwest_client);
        if self.max_retries > 0 {
            let policy = exponential_backoff(
                self.retry_base_delay,
                duration_from_secs(MAX_RETRY_DELAY_SECS),
                self.max_retries,
            );
            client_builder = with_retry_middleware(client_builder, policy);
        }
        let client = finish_middleware(client_builder);
        let rate_limiter = match self.rate_limit {
            Some(rate) => {
                if rate == 0 {
                    None
                } else if rate > (u32::MAX as u64) {
                    Some(limiter_per_second(u32::MAX))
                } else {
                    Some(limiter_per_second(rate as u32))
                }
            },
            None => None,
        };
        let c = FilesClient {
            inner: Arc::new(FilesClientInner {
                api_key,
                base_url: self.base_url,
                client,
                rate_limiter,
            }),
        };
        proof {
            assert(c.spec_retry_bounds() =~= self.spec_retry_bounds());
        }
        Ok(c)
    }

    /// Builds the client.
    ///
    /// Fails with a `ConfigError` when no API key is set, or when the HTTP
    /// client cannot be constructed.
    pub fn build(self) -> (r: crate::Result<FilesClient>)
        requires
            self.api_key is Some ==> self.retry_bounds_ok(),
        ensures
            self.api_key is None ==> (r matches Err(FilesError::ConfigError(m))
                && m@ == "API key is required"@),
            self.api_key matches Some(key) ==> match r {
                Ok(c) => self.built_from(key, middleware_client(c.spec_http()), c)
                    && c.spec_timeout() == Some(duration_nanos(self.timeout)),
                Err(e) => e matches FilesError::ConfigError(m)
                    && m@.len() >= "Failed to build HTTP client: "@.len()
                    && m@.subrange(0, "Failed to build HTTP client: "@.len() as int)
                        == "Failed to build HTTP client: "@,
            },
    {
        if self.api_key.is_none() {
            return Err(FilesError::ConfigError(String::from("API key is required")));
        }
        let http = http_client_with_timeout(self.timeout);
        self.build_with(http)
    }

    /// Builds the client unless an API key is set and the retry bounds do not
    /// allow building (see `retry_bounds_ok`); `None`, without building, then.
    pub fn build_checked(self) -> (r: Option<crate::Result<FilesClient>>)
        ensures
            r is None <==> (self.api_key is Some && !self.retry_bounds_ok()),
            self.api_key is None ==> (r matches Some(Err(FilesError::ConfigError(m)))
                && m@ == "API key is required"@),
            self.retry_bounds_ok() ==> (self.api_key matches Some(key) ==> match r {
                Some(Ok(c)) => self.built_from(key, middleware_client(c.spec_http()), c)
                    && c.spec_timeout() == Some(duration_nanos(self.timeout)),
                Some(Err(e)) => e matches FilesError::ConfigError(m)
                    && m@.len() >= "Failed to build HTTP client: "@.len()
                    && m@.subrange(0, "Failed to build HTTP client: "@.len() as int)
                        == "Failed to build HTTP client: "@,
                None => false,
            }),
    {
        if self.api_key.is_some() && !self.check_retry_bounds() {
            None
        } else {
            Some(self.build())
        }
    }
}

/// Internal client state, shared by the clones of a client.
#[derive(Debug)]
pub struct FilesClientInner {
    api_key: String,
    base_url: String,
    client: reqwest_middleware::ClientWithMiddleware,
    rate_limiter: Option<RequestLimiter>,
}

/// Files.com API client: credentials, endpoint, and the HTTP machinery.
#[derive(Debug, Clone)]
pub struct FilesClient {
    inner: Arc<FilesClientInner>,
}

impl FilesClient {
    /// The API key the client authenticates with.
    pub closed spec fn spec_api_key(&self) -> Seq<char> {
        self.inner.api_key@
    }

    /// The base URL the client sends requests to.
    pub closed spec fn spec_base_url(&self) -> Seq<char> {
        self.inner.base_url@
    }

    /// The request timeout (in nanoseconds) of the HTTP client, if one is set.
    pub closed spec fn spec_timeout(&self) -> Option<nat> {
        client_timeout(middleware_client(self.inner.client))
    }

    /// The bounds of the retry policies installed in the client's middleware:
    /// minimum and maximum interval between retries (in nanoseconds) and the
    /// maximum number of retries, one entry per retry layer.
    pub closed spec fn spec_retry_bounds(&self) -> Seq<(nat, nat, Option<u32>)> {
        middleware_retry_policies(self.inner.client).map_values(
            |p: reqwest_retry::policies::ExponentialBackoff| backoff_bounds(p),
        )
    }

    /// The HTTP client (with its middleware) that the client holds and sends
    /// every request with.
    pub closed spec fn spec_http(&self) -> reqwest_middleware::ClientWithMiddleware {
        self.inner.client
    }

    /// The client-side limit of requests per second, if one is enforced.
    pub closed spec fn spec_rate_limit(&self) -> Option<nat> {
        match self.inner.rate_limiter {
            Some(l) => Some(limiter_quota(l)),
            None => None,
        }
    }

    /// Creates a new builder with the default settings.
    pub fn builder() -> (b: FilesClientBuilder)
        ensures
            b.is_default(),
    {
        FilesClientBuilder::default()
    }

    /// The API key the client authenticates with.
    pub fn api_key(&self) -> (k: &str)
        ensures
            k@ == self.spec_api_key(),
    {
        self.inner.api_key.as_str()
    }

    /// The base URL the client sends requests to.
    pub fn base_url(&self) -> (u: &str)
        ensures
            u@ == self.spec_base_url(),
    {
        self.inner.base_url.as_str()
    }

    /// The HTTP client (with its middleware) that sends the requests.
    pub fn http(&self) -> (c: &reqwest_middleware::ClientWithMiddleware)
        ensures
            *c == self.spec_http(),
    {
        &self.inner.client
    }

    /// The client-side rate limiter, if one is configured.
    pub fn rate_limiter(&self) -> (l: Option<&RequestLimiter>)
        ensures
            l is Some <==> self.spec_rate_limit() is Some,
            l matches Some(x) ==> self.spec_rate_limit() == Some(limiter_quota(*x)),
    {
        match &self.inner.rate_limiter {
            Some(l) => Some(l),
            None => None,
        }
    }
}

} // verus!

verus! {

/// HTTP methods used by the client.
#[derive(Debug, Clone, Copy, PartialEq, Eq, Structural)]
pub enum Method {
    Get,
    Post,
    Patch,
    Delete,
}

/// The payload of a request.
#[derive(Debug, Clone)]
pub enum RequestBody {
    /// No payload
    Empty,
    /// A JSON document (already serialized)
    Json(String),
    /// URL-encoded form fields, in order
    Form(Vec<(String, String)>),
}

/// A request ready to be sent: method, absolute URL, headers and payload.
#[derive(Debug, Clone)]
pub struct PreparedRequest {
    pub method: Method,
    pub url: String,
    pub headers: Vec<(String, String)>,
    pub body: RequestBody,
}

/// The characters of each key and value of a list of string pairs.
pub open spec fn pairs_view(pairs: Seq<(String, String)>) -> Seq<(Seq<char>, Seq<char>)> {
    pairs.map_values(|p: (String, String)| (p.0@, p.1@))
}

/// The headers of an API request: the API key and the user agent, plus the
/// JSON content type when the payload is JSON.
pub open spec fn api_headers(api_key: Seq<char>, json: bool) -> Seq<(Seq<char>, Seq<char>)> {
    let base = seq![("X-FilesAPI-Key"@, api_key), ("User-Agent"@, USER_AGENT@)];
    if json {
        base.push(("Content-Type"@, "application/json"@))
    } else {
        base
    }
}

fn pair(k: &str, v: &str) -> (p: (String, String))
    ensures
        p.0@ == k@,
        p.1@ == v@,
{
    (String::from(k), String::from(v))
}

impl FilesClient {
    /// The absolute URL of an API path.
    pub fn request_url(&self, path: &str) -> (u: String)
        ensures
            u@ == self.spec_base_url() + path@,
    {
        concat(self.inner.base_url.as_str(), path)
    }

    /// The headers sent with an API request.
    pub fn request_headers(&self, json: bool) -> (h: Vec<(String, String)>)
        ensures
            pairs_view(h@) == api_headers(self.spec_api_key(), json),
    {
        let mut h: Vec<(String, String)> = Vec::new();
        h.push(pair("X-FilesAPI-Key", self.inner.api_key.as_str()));
        h.push(pair("User-Agent", USER_AGENT));
        if json {
            h.push(pair("Content-Type", "application/json"));
        }
        proof {
            assert(pairs_view(h@) =~= api_headers(self.spec_api_key(), json));
        }
        h
    }

    /// Prepares an API request to `path` with the given method and payload.
    pub fn prepare(&self, method: Method, path: &str, body: RequestBody) -> (r: PreparedRequest)
        ensures
            r.method == method,
            r.url@ == self.spec_base_url() + path@,
            pairs_view(r.headers@) == api_headers(self.spec_api_key(), body is Json),
            r.body == body,
    {
        let json = match &body {
            RequestBody::Json(_) => true,
            _ => false,
        };
        PreparedRequest {
            method,
            url: self.request_url(path),
            headers: self.request_headers(json),
            body,
        }
    }
}

/// The headers of a listing request: the API key alone.
pub open spec fn listing_headers(api_key: Seq<char>) -> Seq<(Seq<char>, Seq<char>)> {
    seq![("X-FilesAPI-Key"@, api_key)]
}

/// `r` is a GET of `path` below the base URL of `client`, sent with the API key alone.
pub open spec fn is_listing_request(r: PreparedRequest, client: FilesClient, path: Seq<char>) -> bool {
    &&& r.method == Method::Get
    &&& r.url@ == client.spec_base_url() + path
    &&& pairs_view(r.headers@) == listing_headers(client.spec_api_key())
    &&& r.body is Empty
}

impl FilesClient {
    /// A GET of `path` below the base URL with the API key as its only header,
    /// as the listings whose pagination comes in response headers are sent.
    pub fn listing_request(&self, path: &str) -> (r: PreparedRequest)
        ensures
            is_listing_request(r, *self, path@),
    {
        let mut headers: Vec<(String, String)> = Vec::new();
        headers.push(pair("X-FilesAPI-Key", self.inner.api_key.as_str()));
        proof {
            assert(pairs_view(headers@) =~= listing_headers(self.spec_api_key()));
        }
        PreparedRequest { method: Method::Get, url: self.request_url(path), headers, body: RequestBody::Empty }
    }
}

/// Whether an HTTP status code reports success (`StatusCode::is_success`).
pub open spec fn is_success(status: u16) -> bool {
    200 <= status < 300
}

/// The message reported for a failed request whose response body is `body`:
/// the string under `error`, else the string under `message`, else the body itself.
pub open spec fn error_message_for(body: Seq<char>) -> Seq<char> {
    match json_member_text(body, "error"@) {
        Some(Some(s)) => s,
        Some(None) => body,
        None => match json_member_text(body, "message"@) {
            Some(Some(s)) => s,
            _ => body,
        },
    }
}

/// `e` is the error reported for status `code` with `message` and no further context.
pub open spec fn is_status_error(e: FilesError, code: u16, message: Seq<char>) -> bool {
    if code == 400 {
        e matches FilesError::BadRequest { message: m, field: None } && m@ == message
    } else if code == 401 {
        e matches FilesError::AuthenticationFailed { message: m, auth_type: None } && m@ == message
    } else if code == 403 {
        e matches FilesError::Forbidden { message: m, resource: None } && m@ == message
    } else if code == 404 {
        e matches FilesError::NotFound { message: m, resource_type: None, path: None } && m@ == message
    } else if code == 409 {
        e matches FilesError::Conflict { message: m, resource: None } && m@ == message
    } else if code == 412 {
        e matches FilesError::PreconditionFailed { message: m, condition: None } && m@ == message
    } else if code == 422 {
        e matches FilesError::UnprocessableEntity { message: m, field: None, value: None } && m@ == message
    } else if code == 423 {
        e matches FilesError::Locked { message: m, resource: None } && m@ == message
    } else if code == 429 {
        e matches FilesError::RateLimited { message: m, retry_after: None } && m@ == message
    } else if code == 500 {
        e matches FilesError::InternalServerError { message: m, request_id: None } && m@ == message
    } else if code == 503 {
        e matches FilesError::ServiceUnavailable { message: m, retry_after: None } && m@ == message
    } else {
        e matches FilesError::ApiError { code: c, message: m, endpoint: None } && c == code && m@ == message
    }
}

/// The message of a failed response, read from its body.
pub fn error_message(body: &str) -> (m: String)
    ensures
        m@ == error_message_for(body@),
{
    match read_json_member_text(body, "error") {
        Some(Some(s)) => s,
        Some(None) => String::from(body),
        None => match read_json_member_text(body, "message") {
            Some(Some(s)) => s,
            _ => String::from(body),
        },
    }
}

/// The error reported for a failed response with status `code` and `message`.
pub fn error_for_status(code: u16, message: String) -> (e: FilesError)
    ensures
        is_status_error(e, code, message@),
{
    match code {
        400 => FilesError::BadRequest { message, field: None },
        401 => FilesError::AuthenticationFailed { message, auth_type: None },
        403 => FilesError::Forbidden { message, resource: None },
        404 => FilesError::NotFound { message, resource_type: None, path: None },
        409 => FilesError::Conflict { message, resource: None },
        412 => FilesError::PreconditionFailed { message, condition: None },
        422 => FilesError::UnprocessableEntity { message, field: None, value: None },
        423 => FilesError::Locked { message, resource: None },
        429 => FilesError::RateLimited { message, retry_after: None },
        500 => FilesError::InternalServerError { message, request_id: None },
        503 => FilesError::ServiceUnavailable { message, retry_after: None },
        _ => FilesError::ApiError { code, message, endpoint: None },
    }
}

/// Turns the status and body text of an API response into the JSON value of
/// the response or the error it reports.
///
/// A 204 response is `null`; another successful response is read as JSON,
/// failing with the path at which reading failed; a failed response becomes
/// the error of its status, with the message read from its body.
pub fn handle_response(status: u16, body: &str) -> (r: crate::Result<serde_json::Value>)
    ensures
        is_success(status) && status == 204 ==> (r matches Ok(v) && v == json_document("null"@)),
        is_success(status) && status != 204 ==> (r is Ok <==> json_error_path(body@) is None),
        is_success(status) && status != 204 ==> (r matches Ok(v) ==> v == json_document(body@)),
        is_success(status) && status != 204 ==> (r matches Err(e) ==> (e matches FilesError::JsonPathError { path, source }
            && json_error_path(body@) == Some(path@) && source == json_read_error(body@))),
        !is_success(status) ==> (r matches Err(e) && is_status_error(e, status, error_message_for(body@))),
        200 <= status < 300 && status != 204 && json_error_path(body@) is None
            ==> r == Ok::<serde_json::Value, FilesError>(json_document(body@)),
        (status < 200 || status >= 300) ==> (r matches Err(e) && is_status_error(e, status, error_message_for(body@))),
{
    if 200 <= status && status < 300 {
        if status == 204 {
            return Ok(json_null());
        }
        match read_json_tracking_path(body) {
            Ok(value) => Ok(value),
            Err((path, source)) => Err(FilesError::JsonPathError { path, source }),
        }
    } else {
        let message = error_message(body);
        Err(error_for_status(status, message))
    }
}

} // verus!

verus! {

/// An error made from a failed response reports the status code of that
/// response, keeps its message, and carries no retry-after hint.
pub proof fn lemma_status_error_reports_status(e: FilesError, code: u16, message: Seq<char>)
    requires
        is_status_error(e, code, message),
    ensures
        e.spec_status_code() == Some(code),
        e.spec_message() == Some(message),
        e.spec_retry_after() is None,
{
}

/// An error made from a failed response is retryable exactly when the
/// response was 429, 500, 502, 503 or 504.
pub proof fn lemma_status_error_retryable(e: FilesError, code: u16, message: Seq<char>)
    requires
        is_status_error(e, code, message),
    ensures
        e.spec_is_retryable() <==> (code == 429 || code == 500 || code == 502 || code == 503
            || code == 504),
{
}

/// An error is retryable exactly when it stands for a 429, 500, 502, 503 or
/// 504 status.
pub proof fn lemma_retryable_statuses(e: FilesError)
    ensures
        e.spec_is_retryable() <==> (e.spec_status_code() == Some(429u16)
            || e.spec_status_code() == Some(500u16) || e.spec_status_code() == Some(502u16)
            || e.spec_status_code() == Some(503u16) || e.spec_status_code() == Some(504u16)),
{
}

/// The client's retry layer retries an answer exactly when the error made from
/// it would be retryable.
pub proof fn lemma_retried_exactly_when_retryable(e: FilesError, code: u16, message: Seq<char>)
    requires
        is_status_error(e, code, message),
    ensures
        (spec_retry_class(code) == RetryClass::Transient) <==> e.spec_is_retryable(),
{
}

/// A client built with `max_retries = n > 0` carries exactly one retry policy,
/// from the builder's base delay up to 60 seconds, that allows at most `n`
/// retries; a client built with `max_retries = 0` retries nothing.
pub proof fn lemma_built_client_retries(b: FilesClientBuilder, key: String, http: reqwest::Client, c: FilesClient)
    requires
        b.built_from(key, http, c),
    ensures
        b.max_retries > 0 ==> c.spec_retry_bounds().len() == 1
            && c.spec_retry_bounds()[0] == (duration_nanos(b.retry_base_delay), 60_000_000_000nat,
                Some(b.max_retries)),
        b.max_retries == 0 ==> c.spec_retry_bounds().len() == 0,
{
}

/// The statuses that count as success are exactly the 2xx statuses, 201
/// Created and 204 No Content among them.
pub proof fn lemma_success_is_2xx(status: u16)
    ensures
        is_success(status) <==> 200 <= status < 300,
        is_success(201u16) && is_success(204u16) && is_success(299u16),
        !is_success(199u16) && !is_success(300u16) && !is_success(404u16),
{
}

/// A retry-after hint is only ever carried by a retryable error.
pub proof fn lemma_retry_after_only_when_retryable(e: FilesError)
    requires
        e.spec_retry_after() is Some,
    ensures
        e.spec_is_retryable(),
{
}

} // verus!
