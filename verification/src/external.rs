//! Declarations of the outside types that the library carries, and the
//! trusted wrappers around the outside calls it makes.

use vstd::prelude::*;
use std::time::Duration;

verus! {

#[verifier::external_type_specification]
#[verifier::external_body]
pub struct ExReqwestError(reqwest::Error);

#[verifier::external_type_specification]
#[verifier::external_body]
pub struct ExReqwestClient(reqwest::Client);

#[verifier::external_type_specification]
#[verifier::external_body]
pub struct ExMiddlewareClient(reqwest_middleware::ClientWithMiddleware);

#[verifier::external_type_specification]
#[verifier::external_body]
pub struct ExMiddlewareBuilder(reqwest_middleware::ClientBuilder);

#[verifier::external_type_specification]
#[verifier::external_body]
pub struct ExBackoff(reqwest_retry::policies::ExponentialBackoff);

#[verifier::external_type_specification]
#[verifier::external_body]
pub struct ExJsonValue(serde_json::Value);

#[verifier::external_type_specification]
#[verifier::external_body]
#[verifier::reject_recursive_types(K)]
#[verifier::reject_recursive_types(V)]
pub struct ExJsonMap<K, V>(serde_json::Map<K, V>);

/// `serde_json::Value::clone`; nothing is claimed of the copy.
pub assume_specification[ <serde_json::Value as Clone>::clone ](v: &serde_json::Value) -> serde_json::Value;

/// `serde_json::Map::clone`; nothing is claimed of the copy.
pub assume_specification[ <serde_json::Map<String, serde_json::Value> as Clone>::clone ](
    m: &serde_json::Map<String, serde_json::Value>,
) -> serde_json::Map<String, serde_json::Value>;

#[verifier::external_type_specification]
#[verifier::external_body]
pub struct ExJsonError(serde_json::Error);

#[verifier::external_type_specification]
#[verifier::external_body]
pub struct ExUrlParseError(url::ParseError);

/// `String::from(&str)` copies the characters of its argument.
pub assume_specification<'a>[ <String as From<&'a str>>::from ](s: &str) -> (r: String)
    ensures
        r@ == s@,
;

/// `Duration` is `Copy`; its `clone` returns the same duration.
pub assume_specification[ <Duration as Clone>::clone ](d: &Duration) -> (r: Duration)
    ensures
        r == *d,
;

/// Total nanoseconds of a duration, as `Duration::as_nanos` reports them.
pub uninterp spec fn duration_nanos(d: Duration) -> nat;

/// `Duration::from_secs`: a duration of `secs` whole seconds, that is
/// `secs * 10^9` nanoseconds.
#[verifier::external_body]
pub(crate) fn duration_from_secs(secs: u64) -> (d: Duration)
    ensures
        duration_nanos(d) == secs * 1_000_000_000,
{
    Duration::from_secs(secs)
}

/// `Duration::as_nanos`: the total number of nanoseconds in `d`.
#[verifier::external_body]
pub(crate) fn duration_as_nanos(d: &Duration) -> (n: u128)
    ensures
        n == duration_nanos(*d),
{
    d.as_nanos()
}

/// The text that `reqwest::Error`'s `Display` writes for `e`.
pub uninterp spec fn request_error_display(e: reqwest::Error) -> Seq<char>;

/// The text that `serde_json::Error`'s `Display` writes for `e`.
pub uninterp spec fn json_error_display(e: serde_json::Error) -> Seq<char>;

/// The text that `url::ParseError`'s `Display` writes for `e`.
pub uninterp spec fn parse_error_display(e: url::ParseError) -> Seq<char>;

/// The `Display` text of a `reqwest::Error`.
#[verifier::external_body]
pub(crate) fn request_error_text(e: &reqwest::Error) -> (s: String)
    ensures
        s@ == request_error_display(*e),
{
    format!("{}", e)
}

/// The `Display` text of a `serde_json::Error`.
#[verifier::external_body]
pub(crate) fn json_error_text(e: &serde_json::Error) -> (s: String)
    ensures
        s@ == json_error_display(*e),
{
    format!("{}", e)
}

/// The `Display` text of a `url::ParseError`.
#[verifier::external_body]
pub(crate) fn parse_error_text(e: &url::ParseError) -> (s: String)
    ensures
        s@ == parse_error_display(*e),
{
    format!("{}", e)
}

} // verus!

verus! {

/// A token-bucket limiter of requests, built with `governor`. Verus cannot
/// read the declaration of `governor::RateLimiter` (its bounds name
/// `governor`'s traits), so the limiter is held here opaquely.
#[verifier::external_body]
#[derive(Debug)]
pub struct RequestLimiter(pub std::sync::Arc<governor::DefaultDirectRateLimiter>);

/// The number of requests per second that a limiter was made to allow.
pub uninterp spec fn limiter_quota(l: RequestLimiter) -> nat;

/// `governor::RateLimiter::direct(Quota::per_second(n))`, shared behind an `Arc`:
/// a limiter that allows `per_second` requests per second.
/// `NonZeroU32::new(..).unwrap()` would panic on zero, hence the `requires`.
#[verifier::external_body]
pub(crate) fn limiter_per_second(per_second: u32) -> (l: RequestLimiter)
    requires
        per_second != 0,
    ensures
        limiter_quota(l) == per_second,
{
    let quota = governor::Quota::per_second(std::num::NonZeroU32::new(per_second).unwrap());
    RequestLimiter(std::sync::Arc::new(governor::RateLimiter::direct(quota)))
}

/// The request timeout, in nanoseconds, that a `reqwest::Client` was built
/// with (`ClientBuilder::timeout`); `None` when none was set.
pub uninterp spec fn client_timeout(c: reqwest::Client) -> Option<nat>;

/// The minimum and maximum interval between retries (in nanoseconds) and the
/// maximum number of retries of an `ExponentialBackoff` policy.
pub uninterp spec fn backoff_bounds(p: reqwest_retry::policies::ExponentialBackoff) -> (nat, nat, Option<u32>);

/// The `reqwest::Client` that a `reqwest_middleware::ClientBuilder` wraps.
pub uninterp spec fn builder_client(b: reqwest_middleware::ClientBuilder) -> reqwest::Client;

/// The policies of the retry middleware layers on a builder's stack, in the
/// order they were added.
pub uninterp spec fn builder_retry_policies(b: reqwest_middleware::ClientBuilder)
    -> Seq<reqwest_retry::policies::ExponentialBackoff>;

/// The `reqwest::Client` that a `ClientWithMiddleware` sends requests with.
pub uninterp spec fn middleware_client(c: reqwest_middleware::ClientWithMiddleware) -> reqwest::Client;

/// The policies of the retry middleware layers of a `ClientWithMiddleware`, in order.
pub uninterp spec fn middleware_retry_policies(c: reqwest_middleware::ClientWithMiddleware)
    -> Seq<reqwest_retry::policies::ExponentialBackoff>;

/// `reqwest::Client::builder().timeout(timeout).build()`: a client whose
/// requests time out after `timeout`. Whether it builds depends on the machine
/// (TLS back end), so success is not claimed.
#[verifier::external_body]
pub(crate) fn http_client_with_timeout(timeout: Duration)
    -> (r: core::result::Result<reqwest::Client, reqwest::Error>)
    ensures
        r matches Ok(c) ==> client_timeout(c) == Some(duration_nanos(timeout)),
{
    reqwest::Client::builder().timeout(timeout).build()
}

/// `reqwest_middleware::ClientBuilder::new(client)`: a builder around `client`
/// with an empty middleware stack.
#[verifier::external_body]
pub(crate) fn middleware_builder(client: reqwest::Client) -> (b: reqwest_middleware::ClientBuilder)
    ensures
        builder_client(b) == client,
        builder_retry_policies(b) == Seq::<reqwest_retry::policies::ExponentialBackoff>::empty(),
{
    reqwest_middleware::ClientBuilder::new(client)
}

/// `ExponentialBackoff::builder().retry_bounds(min, max).build_with_max_retries(n)`:
/// a policy with those bounds and at most `n` retries.
/// `retry_bounds` asserts that `min <= max`, hence the `requires`.
#[verifier::external_body]
pub(crate) fn exponential_backoff(min: Duration, max: Duration, max_retries: u32)
    -> (p: reqwest_retry::policies::ExponentialBackoff)
    requires
        duration_nanos(min) <= duration_nanos(max),
    ensures
        backoff_bounds(p) == (duration_nanos(min), duration_nanos(max), Some(max_retries)),
{
    reqwest_retry::policies::ExponentialBackoff::builder()
        .retry_bounds(min, max)
        .build_with_max_retries(max_retries)
}

/// `builder.with(RetryTransientMiddleware::new_with_policy_and_strategy(policy,
/// StatusRetryStrategy))`: pushes the middleware that retries, according to
/// `policy`, what `StatusRetryStrategy` finds transient onto the builder's
/// stack; the wrapped client stays.
#[verifier::external_body]
pub(crate) fn with_retry_middleware(
    builder: reqwest_middleware::ClientBuilder,
    policy: reqwest_retry::policies::ExponentialBackoff,
) -> (r: reqwest_middleware::ClientBuilder)
    ensures
        builder_client(r) == builder_client(builder),
        builder_retry_policies(r) == builder_retry_policies(builder).push(policy),
{
    builder.with(reqwest_retry::RetryTransientMiddleware::new_with_policy_and_strategy(
        policy,
        crate::retry::StatusRetryStrategy,
    ))
}

/// `reqwest_middleware::ClientBuilder::build`: the client and middleware stack
/// of the builder, moved into a `ClientWithMiddleware`.
#[verifier::external_body]
pub(crate) fn finish_middleware(builder: reqwest_middleware::ClientBuilder)
    -> (c: reqwest_middleware::ClientWithMiddleware)
    ensures
        middleware_client(c) == builder_client(builder),
        middleware_retry_policies(c) == builder_retry_policies(builder),
{
    builder.build()
}

/// What `serde_path_to_error::deserialize` over `serde_json::Deserializer::from_str(text)`
/// reports for a `serde_json::Value`: `None` when a value is read, otherwise the
/// path (as `Path`'s `Display` writes it) at which reading failed.
pub uninterp spec fn json_error_path(text: Seq<char>) -> Option<Seq<char>>;

/// The `serde_json::Value` that `serde_json` reads from the JSON document `text`
/// (meaningful when `json_error_path(text)` is `None`).
pub uninterp spec fn json_document(text: Seq<char>) -> serde_json::Value;

/// The `serde_json::Error` that reading the JSON document `text` fails with
/// (meaningful when `json_error_path(text)` is `Some`).
pub uninterp spec fn json_read_error(text: Seq<char>) -> serde_json::Error;

/// Reads one JSON value from `text`, tracking the path of a failure; on failure
/// returns the path text and the `serde_json` error.
#[verifier::external_body]
pub(crate) fn read_json_tracking_path(text: &str)
    -> (r: core::result::Result<serde_json::Value, (String, serde_json::Error)>)
    ensures
        r is Ok <==> json_error_path(text@) is None,
        r matches Ok(v) ==> v == json_document(text@),
        r matches Err((p, e)) ==> json_error_path(text@) == Some(p@) && e == json_read_error(text@),
{
    let deserializer = &mut serde_json::Deserializer::from_str(text);
    serde_path_to_error::deserialize(deserializer).map_err(|e| (e.path().to_string(), e.into_inner()))
}

/// `serde_json::Value::Null`, the value that `serde_json` reads from `null`.
#[verifier::external_body]
pub(crate) fn json_null() -> (v: serde_json::Value)
    ensures
        v == json_document("null"@),
{
    serde_json::Value::Null
}

/// What `serde_json` finds under `key` in `text`: `None` when `text` is not a
/// JSON document (`serde_json::from_str::<Value>` fails) or has no member `key`
/// (`Value::get` gives `None`); `Some(None)` when the member is not a string
/// (`Value::as_str` gives `None`); `Some(Some(s))` when it is the string `s`.
pub uninterp spec fn json_member_text(text: Seq<char>, key: Seq<char>) -> Option<Option<Seq<char>>>;

/// Looks up the member `key` of the JSON document `text`, as described at
/// `json_member_text`.
#[verifier::external_body]
pub(crate) fn read_json_member_text(text: &str, key: &str) -> (r: Option<Option<String>>)
    ensures
        match r {
            None => json_member_text(text@, key@) is None,
            Some(None) => json_member_text(text@, key@) == Some(Option::<Seq<char>>::None),
            Some(Some(s)) => json_member_text(text@, key@) == Some(Some(s@)),
        },
{
    serde_json::from_str::<serde_json::Value>(text)
        .ok()
        .and_then(|v| v.get(key).map(|m| m.as_str().map(|s| s.to_string())))
}

} // verus!

verus! {

/// What `str::to_uppercase` gives for `s`: its Unicode upper-case form.
pub uninterp spec fn upper_text(s: Seq<char>) -> Seq<char>;

/// `str::to_uppercase`.
#[verifier::external_body]
pub(crate) fn to_upper(s: &str) -> (r: String)
    ensures
        r@ == upper_text(s@),
{
    s.to_uppercase()
}

} // verus!

verus! {

/// The compact JSON text that `serde_json::Value`'s `Display` writes for `v`.
pub uninterp spec fn json_text(v: serde_json::Value) -> Seq<char>;

/// `serde_json::Value::to_string`: the compact JSON text of `v`.
#[verifier::external_body]
pub(crate) fn value_text(v: &serde_json::Value) -> (r: String)
    ensures
        r@ == json_text(*v),
{
    v.to_string()
}

} // verus!

verus! {

#[verifier::external_type_specification]
#[verifier::external_body]
#[verifier::reject_recursive_types(T)]
pub struct ExHeaderMap<T>(http::HeaderMap<T>);

#[verifier::external_type_specification]
#[verifier::external_body]
pub struct ExHeaderValue(http::HeaderValue);

/// The value of the header `name` in `headers`, as `HeaderMap::get` finds it
/// (names compared without regard to case, the first of several values) and
/// `HeaderValue::to_str` reads it: `None` when the header is missing or its
/// value is not visible ASCII text.
pub uninterp spec fn header_text(headers: http::HeaderMap, name: Seq<char>) -> Option<Seq<char>>;

/// `headers.get(name).and_then(|v| v.to_str().ok())`, copied into a `String`.
#[verifier::external_body]
pub(crate) fn header_value_text(headers: &http::HeaderMap, name: &str) -> (r: Option<String>)
    ensures
        match r {
            Some(s) => header_text(*headers, name@) == Some(s@),
            None => header_text(*headers, name@) is None,
        },
{
    headers.get(name).and_then(|v| v.to_str().ok()).map(|s| s.to_string())
}

/// The entries of `headers` in the order `HeaderMap::iter` yields them: each
/// name as `HeaderName::as_str` writes it (in lower case) and its value as
/// `HeaderValue::to_str` reads it (`None` when it is not visible ASCII text).
pub uninterp spec fn header_entries(headers: http::HeaderMap) -> Seq<(Seq<char>, Option<Seq<char>>)>;

/// The characters of the name and value of each header entry.
pub open spec fn entries_view(entries: Seq<(String, Option<String>)>) -> Seq<(Seq<char>, Option<Seq<char>>)> {
    entries.map_values(|e: (String, Option<String>)| (e.0@, match e.1 {
        Some(v) => Some(v@),
        None => None,
    }))
}

/// `headers.iter()`, each entry copied into owned strings.
#[verifier::external_body]
pub(crate) fn header_list(headers: &http::HeaderMap) -> (r: Vec<(String, Option<String>)>)
    ensures
        entries_view(r@) == header_entries(*headers),
{
    headers.iter().map(|(n, v)| (n.as_str().to_string(), v.to_str().ok().map(|s| s.to_string()))).collect()
}

} // verus!

verus! {

#[verifier::external_type_specification]
#[verifier::external_body]
pub struct ExReqwestResponse(reqwest::Response);

#[verifier::external_type_specification]
#[verifier::external_body]
pub struct ExMiddlewareError(reqwest_middleware::Error);

#[verifier::external_type_specification]
#[verifier::external_body]
pub struct ExRetryable(reqwest_retry::Retryable);

} // verus!
