//! The retry and rate-limit rules of the request client.
//!
//! One HTTP GET is a sequence of attempts.  After each attempt the rules
//! here decide what happens next: a 2xx succeeds; a 429 fails at once with
//! the publisher's retry-after hint, and is never retried here, so the
//! caller keeps the retry decision; a 5xx or a connection failure is
//! retried with exponential backoff (`2^attempt` seconds) while attempts
//! remain; anything else fails without retry.

use crate::errors::SourceError;
use crate::hashing::{append_dec, u64_dec};
use vstd::prelude::*;

verus! {

/// A 2xx status.
pub open spec fn spec_is_success_status(status: u16) -> bool {
    200 <= status < 300
}

/// A 5xx status.
pub open spec fn spec_is_server_error_status(status: u16) -> bool {
    500 <= status < 600
}

#[verifier::when_used_as_spec(spec_is_success_status)]
pub fn is_success_status(status: u16) -> (r: bool)
    ensures
        r == spec_is_success_status(status),
{
    200 <= status && status < 300
}

#[verifier::when_used_as_spec(spec_is_server_error_status)]
pub fn is_server_error_status(status: u16) -> (r: bool)
    ensures
        r == spec_is_server_error_status(status),
{
    500 <= status && status < 600
}

/// The retry-after wait a 429 response carries: the publisher's hint, or
/// sixty seconds when it gave none.
pub open spec fn retry_after_hint(hint: Option<u64>) -> u64 {
    match hint {
        Option::Some(secs) => secs,
        Option::None => 60u64,
    }
}

/// The backoff before retry number `attempt`: `2^attempt` seconds.
pub open spec fn backoff_secs(attempt: u32) -> u64
    recommends
        attempt < 64,
{
    1u64 << attempt
}

/// Bookkeeping for one streamed chunk of a download: the new byte count,
/// and the progress pair to report when a total length is known.  Bytes
/// are written in the order received; the pair is (bytes so far, total).
pub fn chunk_progress(downloaded: u64, chunk_len: u64, total: Option<u64>) -> (r: (
    u64,
    Option<(u64, u64)>,
))
    requires
        downloaded + chunk_len <= u64::MAX,
    ensures
        r.0 == downloaded + chunk_len,
        r.1 == match total {
            Option::Some(t) => Option::Some(((downloaded + chunk_len) as u64, t)),
            Option::None => Option::<(u64, u64)>::None,
        },
{
    let new_total = downloaded + chunk_len;
    let report = match total {
        Option::Some(t) => Option::Some((new_total, t)),
        Option::None => Option::None,
    };
    (new_total, report)
}

/// What one attempt of an HTTP GET produced.
#[derive(Debug, Clone, PartialEq, Eq)]
pub enum HttpEvent {
    /// A response arrived; `retry_after` is the parsed Retry-After header,
    /// if the response carried one.
    Response { status: u16, retry_after: Option<u64> },
    /// The request itself failed before any response.
    ConnectionFailed(String),
}

/// What the client does after one attempt.
#[derive(Debug, Clone, PartialEq, Eq)]
pub enum GetStep {
    /// The response is the call's result.
    Succeed,
    /// The call fails with this error, with no further attempt.
    Fail(SourceError),
    /// Wait `delay_secs`, then try again as attempt `next_attempt`.
    Retry { next_attempt: u32, delay_secs: u64 },
}

/// The error message for a non-2xx status outside the retried cases.
pub open spec fn http_error_message(status: u16) -> Seq<char> {
    "HTTP error: "@ + u64_dec(status as nat)
}

/// Decide what follows one attempt of an HTTP GET.
///
/// A 429 fails with `RateLimited` on every attempt, the first included,
/// and is never retried by the client.
pub fn next_get_step(attempt: u32, max_retries: u32, event: HttpEvent) -> (r: GetStep)
    requires
        attempt <= max_retries,
        max_retries < 64,
    ensures
        match event {
            HttpEvent::Response { status, retry_after } => {
                if spec_is_success_status(status) {
                    r is Succeed
                } else if status == 429 {
                    r == GetStep::Fail(SourceError::RateLimited(retry_after_hint(retry_after)))
                } else if spec_is_server_error_status(status) && attempt < max_retries {
                    r == (GetStep::Retry {
                        next_attempt: (attempt + 1) as u32,
                        delay_secs: backoff_secs((attempt + 1) as u32),
                    })
                } else {
                    r matches GetStep::Fail(e) && (e matches SourceError::Other(m) && m@
                        == http_error_message(status))
                }
            },
            HttpEvent::ConnectionFailed(msg) => {
                if attempt < max_retries {
                    r == (GetStep::Retry {
                        next_attempt: (attempt + 1) as u32,
                        delay_secs: backoff_secs((attempt + 1) as u32),
                    })
                } else {
                    r == GetStep::Fail(SourceError::Http(msg))
                }
            },
        },
{
    match event {
        HttpEvent::Response { status, retry_after } => {
            if is_success_status(status) {
                GetStep::Succeed
            } else if status == 429 {
                let hint = match retry_after {
                    Option::Some(secs) => secs,
                    Option::None => 60,
                };
                GetStep::Fail(SourceError::RateLimited(hint))
            } else if is_server_error_status(status) && attempt < max_retries {
                let next = attempt + 1;
                GetStep::Retry { next_attempt: next, delay_secs: 1u64 << next }
            } else {
                let mut msg = String::from_str("HTTP error: ");
                append_dec(&mut msg, status as u64);
                GetStep::Fail(SourceError::Other(msg))
            }
        },
        HttpEvent::ConnectionFailed(msg) => {
            if attempt < max_retries {
                let next = attempt + 1;
                GetStep::Retry { next_attempt: next, delay_secs: 1u64 << next }
            } else {
                GetStep::Fail(SourceError::Http(msg))
            }
        },
    }
}

} // verus!
