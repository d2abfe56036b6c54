//! Which answers the client retries: the transient statuses 429, 500, 502,
//! 503 and 504.

use vstd::prelude::*;

verus! {

/// What a retry layer makes of an answer.
#[derive(Debug, Clone, Copy, PartialEq, Eq, Structural)]
pub enum RetryClass {
    /// A successful answer: nothing to retry
    Done,
    /// A transient failure: the request is tried again
    Transient,
    /// A failure that another attempt would not mend
    Fatal,
}

/// The retry class of an answer with `status`: 429, 500, 502, 503 and 504 are
/// transient, the 2xx statuses are done, every other status is fatal.
pub open spec fn spec_retry_class(status: u16) -> RetryClass {
    if status == 429 || status == 500 || status == 502 || status == 503 || status == 504 {
        RetryClass::Transient
    } else if 200 <= status < 300 {
        RetryClass::Done
    } else {
        RetryClass::Fatal
    }
}

/// The retry class of an answer with `status`.
pub fn retry_class(status: u16) -> (c: RetryClass)
    ensures
        c == spec_retry_class(status),
{
    if status == 429 || status == 500 || status == 502 || status == 503 || status == 504 {
        RetryClass::Transient
    } else if 200 <= status && status < 300 {
        RetryClass::Done
    } else {
        RetryClass::Fatal
    }
}

/// The retry strategy of the client: an answer is retried by its status as
/// `retry_class` decides; a request that got no answer is judged as
/// `reqwest_retry::default_on_request_failure` judges it.
pub struct StatusRetryStrategy;

impl reqwest_retry::RetryableStrategy for StatusRetryStrategy {
    #[verifier::external_body]
    fn handle(
        &self,
        res: &core::result::Result<reqwest::Response, reqwest_middleware::Error>,
    ) -> Option<reqwest_retry::Retryable> {
        match res {
            Ok(response) => match retry_class(response.status().as_u16()) {
                RetryClass::Done => None,
                RetryClass::Transient => Some(reqwest_retry::Retryable::Transient),
                RetryClass::Fatal => Some(reqwest_retry::Retryable::Fatal),
            },
            Err(error) => reqwest_retry::default_on_request_failure(error),
        }
    }
}

} // verus!
