//! Request/response interceptors for observability and debugging.
//!
//! The logging interceptor writes one line per request and one per response
//! (or failure), and optionally the headers of both; the value of the API key
//! header is never written. The metrics interceptor hands a `RequestMetrics`
//! record of every request to a callback.

use vstd::prelude::*;
use std::time::Duration;
use crate::client::is_success;
use crate::external::{entries_view, header_entries, header_list};
use crate::text::text_eq;

verus! {

/// Prefix of every line the logging interceptor writes.
pub const LOG_PREFIX: &'static str = "[files-sdk]";

/// Name of the request header that carries the API key, as header names are
/// written (in lower case).
pub const API_KEY_HEADER: &'static str = "x-filesapi-key";

/// Line that opens the list of request headers.
pub const REQUEST_HEADERS_LINE: &'static str = "[files-sdk] Request headers:";

/// Line that opens the list of response headers.
pub const RESPONSE_HEADERS_LINE: &'static str = "[files-sdk] Response headers:";

/// Logs each request and its outcome.
#[derive(Debug, Clone, Copy)]
pub struct LoggingInterceptor {
    /// Whether the headers of requests and responses are logged too
    pub include_headers: bool,
}

impl LoggingInterceptor {
    /// A logging interceptor that does not log headers.
    pub fn new() -> (r: Self)
        ensures
            !r.include_headers,
    {
        Self { include_headers: false }
    }

    /// A logging interceptor that logs headers too.
    pub fn with_headers() -> (r: Self)
        ensures
            r.include_headers,
    {
        Self { include_headers: true }
    }
}

impl Default for LoggingInterceptor {
    fn default() -> (r: Self)
        ensures
            !r.include_headers,
    {
        Self::new()
    }
}

/// `[files-sdk] METHOD URL`: the line logged when a request is sent.
pub open spec fn request_log(method: Seq<char>, url: Seq<char>) -> Seq<char> {
    "[files-sdk] "@ + method + " "@ + url
}

/// The line logged for a request header: the API key's value is replaced by
/// `[REDACTED]`; another header is logged with its value when that is text,
/// and not at all otherwise.
pub open spec fn request_header_log(name: Seq<char>, value: Option<Seq<char>>) -> Option<Seq<char>> {
    if name == API_KEY_HEADER@ {
        Some("  "@ + name + ": [REDACTED]"@)
    } else {
        match value {
            Some(v) => Some("  "@ + name + ": "@ + v),
            None => None,
        }
    }
}

/// The line logged for a response header: its value when that is text.
pub open spec fn response_header_log(name: Seq<char>, value: Option<Seq<char>>) -> Option<Seq<char>> {
    match value {
        Some(v) => Some("  "@ + name + ": "@ + v),
        None => None,
    }
}

/// `[files-sdk] METHOD URL - STATUS (ELAPSED)`: the line logged for a response.
pub open spec fn response_log(method: Seq<char>, url: Seq<char>, status: Seq<char>, elapsed: Seq<char>) -> Seq<char> {
    "[files-sdk] "@ + method + " "@ + url + " - "@ + status + " ("@ + elapsed + ")"@
}

/// `[files-sdk] METHOD URL - ERROR: ERROR (ELAPSED)`: the line logged for a failure.
pub open spec fn failure_log(method: Seq<char>, url: Seq<char>, error: Seq<char>, elapsed: Seq<char>) -> Seq<char> {
    "[files-sdk] "@ + method + " "@ + url + " - ERROR: "@ + error + " ("@ + elapsed + ")"@
}

/// The line logged when a request is sent.
pub fn request_line(method: &str, url: &str) -> (s: String)
    ensures
        s@ == request_log(method@, url@),
{
    let mut s = String::from_str("[files-sdk] ");
    s.append(method);
    s.append(" ");
    s.append(url);
    s
}

/// The line logged for a request header whose value is `value` (none when it
/// is not text); `name` as header names are written, in lower case.
pub fn request_header_line(name: &str, value: Option<&str>) -> (s: Option<String>)
    ensures
        opt_text(s) == request_header_log(name@, match value {
            Some(v) => Some(v@),
            None => None,
        }),
{
    if text_eq(name, API_KEY_HEADER) {
        let mut s = String::from_str("  ");
        s.append(name);
        s.append(": [REDACTED]");
        Some(s)
    } else {
        match value {
            Some(v) => {
                let mut s = String::from_str("  ");
                s.append(name);
                s.append(": ");
                s.append(v);
                Some(s)
            },
            None => None,
        }
    }
}

/// The line logged for a response header whose value is `value` (none when it
/// is not text).
pub fn response_header_line(name: &str, value: Option<&str>) -> (s: Option<String>)
    ensures
        opt_text(s) == response_header_log(name@, match value {
            Some(v) => Some(v@),
            None => None,
        }),
{
    match value {
        Some(v) => {
            let mut s = String::from_str("  ");
            s.append(name);
            s.append(": ");
            s.append(v);
            Some(s)
        },
        None => None,
    }
}

/// The line logged for a response with status text `status` after `elapsed`.
pub fn response_line(method: &str, url: &str, status: &str, elapsed: &str) -> (s: String)
    ensures
        s@ == response_log(method@, url@, status@, elapsed@),
{
    let mut s = request_line(method, url);
    s.append(" - ");
    s.append(status);
    s.append(" (");
    s.append(elapsed);
    s.append(")");
    s
}

/// The line logged for a request that failed with `error` after `elapsed`.
pub fn failure_line(method: &str, url: &str, error: &str, elapsed: &str) -> (s: String)
    ensures
        s@ == failure_log(method@, url@, error@, elapsed@),
{
    let mut s = request_line(method, url);
    s.append(" - ERROR: ");
    s.append(error);
    s.append(" (");
    s.append(elapsed);
    s.append(")");
    s
}

/// The lines logged for the request headers `entries`, in order: one per
/// header that `request_header_log` gives a line for.
pub open spec fn request_header_logs(entries: Seq<(Seq<char>, Option<Seq<char>>)>) -> Seq<Seq<char>>
    decreases entries.len(),
{
    if entries.len() == 0 {
        Seq::empty()
    } else {
        let rest = request_header_logs(entries.drop_last());
        match request_header_log(entries.last().0, entries.last().1) {
            Some(l) => rest.push(l),
            None => rest,
        }
    }
}

/// The lines logged for the response headers `entries`, in order.
pub open spec fn response_header_logs(entries: Seq<(Seq<char>, Option<Seq<char>>)>) -> Seq<Seq<char>>
    decreases entries.len(),
{
    if entries.len() == 0 {
        Seq::empty()
    } else {
        let rest = response_header_logs(entries.drop_last());
        match response_header_log(entries.last().0, entries.last().1) {
            Some(l) => rest.push(l),
            None => rest,
        }
    }
}

/// The characters of each line.
pub open spec fn lines_view(lines: Seq<String>) -> Seq<Seq<char>> {
    lines.map_values(|l: String| l@)
}

/// The lines logged for the headers of a request.
pub fn request_header_lines(headers: &http::HeaderMap) -> (lines: Vec<String>)
    ensures
        lines_view(lines@) == request_header_logs(header_entries(*headers)),
{
    let entries = header_list(headers);
    let ghost es = entries_view(entries@);
    let mut lines: Vec<String> = Vec::new();
    let mut i: usize = 0;
    while i < entries.len()
        invariant
            0 <= i <= entries.len(),
            es == entries_view(entries@),
            lines_view(lines@) == request_header_logs(es.take(i as int)),
        decreases entries.len() - i,
    {
        let value = match &entries[i].1 {
            Some(v) => Some(v.as_str()),
            None => None,
        };
        let line = request_header_line(entries[i].0.as_str(), value);
        proof {
            assert(es.take(i + 1).drop_last() =~= es.take(i as int));
            assert(es[i as int].0 == entries[i as int].0@);
        }
        let ghost prev = lines@;
        match line {
            Some(l) => {
                lines.push(l);
                proof {
                    assert(lines_view(lines@) =~= lines_view(prev).push(l@));
                }
            },
            None => {},
        }
        i = i + 1;
    }
    proof {
        assert(es.take(entries.len() as int) =~= es);
    }
    lines
}

/// The lines logged for the headers of a response.
pub fn response_header_lines(headers: &http::HeaderMap) -> (lines: Vec<String>)
    ensures
        lines_view(lines@) == response_header_logs(header_entries(*headers)),
{
    let entries = header_list(headers);
    let ghost es = entries_view(entries@);
    let mut lines: Vec<String> = Vec::new();
    let mut i: usize = 0;
    while i < entries.len()
        invariant
            0 <= i <= entries.len(),
            es == entries_view(entries@),
            lines_view(lines@) == response_header_logs(es.take(i as int)),
        decreases entries.len() - i,
    {
        let value = match &entries[i].1 {
            Some(v) => Some(v.as_str()),
            None => None,
        };
        let line = response_header_line(entries[i].0.as_str(), value);
        proof {
            assert(es.take(i + 1).drop_last() =~= es.take(i as int));
            assert(es[i as int].0 == entries[i as int].0@);
        }
        let ghost prev = lines@;
        match line {
            Some(l) => {
                lines.push(l);
                proof {
                    assert(lines_view(lines@) =~= lines_view(prev).push(l@));
                }
            },
            None => {},
        }
        i = i + 1;
    }
    proof {
        assert(es.take(entries.len() as int) =~= es);
    }
    lines
}

/// The characters of an optional string.
pub open spec fn opt_text(s: Option<String>) -> Option<Seq<char>> {
    match s {
        Some(v) => Some(v@),
        None => None,
    }
}

/// What is recorded of one request.
#[derive(Debug, Clone)]
pub struct RequestMetrics {
    /// HTTP method
    pub method: String,
    /// Request URL
    pub url: String,
    /// Status code of the response, if one came
    pub status_code: Option<u16>,
    /// Time from sending the request to its outcome
    pub duration: Duration,
    /// Whether a response came with a success status
    pub success: bool,
    /// Text of the error, if the request failed without a response
    pub error: Option<String>,
}

impl RequestMetrics {
    /// The record of a request whose outcome was a response with a status
    /// code (`Ok`) or a failure with an error text (`Err`).
    pub fn of_outcome(method: String, url: String, outcome: Result<u16, String>, duration: Duration) -> (m: Self)
        ensures
            m.method == method,
            m.url == url,
            m.duration == duration,
            outcome matches Ok(code) ==> m.status_code == Some(code) && m.success == is_success(code)
                && (m.success <==> 200 <= code < 300)
                && m.error is None,
            outcome matches Err(e) ==> m.status_code is None && !m.success && m.error == Some(e),
    {
        match outcome {
            Ok(code) => RequestMetrics {
                method,
                url,
                status_code: Some(code),
                duration,
                success: 200 <= code && code < 300,
                error: None,
            },
            Err(e) => RequestMetrics { method, url, status_code: None, duration, success: false, error: Some(e) },
        }
    }
}

/// Hands a `RequestMetrics` record of every request to a callback.
pub struct MetricsInterceptor<F> {
    callback: F,
}

impl<F: Fn(RequestMetrics) + Send + Sync + 'static> MetricsInterceptor<F> {
    /// The callback the records are handed to.
    pub closed spec fn spec_callback(&self) -> F {
        self.callback
    }

    /// A metrics interceptor that hands every record to `callback`.
    pub fn new(callback: F) -> (r: Self)
        ensures
            r.spec_callback() == callback,
    {
        Self { callback }
    }

    /// The callback the records are handed to.
    pub fn callback(&self) -> (f: &F)
        ensures
            *f == self.spec_callback(),
    {
        &self.callback
    }
}

/// The API key's value never appears in the log: whatever its value, the API
/// key header is logged as `[REDACTED]`.
pub proof fn lemma_api_key_redacted(value: Option<Seq<char>>)
    ensures
        request_header_log(API_KEY_HEADER@, value) == Some("  "@ + API_KEY_HEADER@ + ": [REDACTED]"@),
{
}

} // verus!
