//! Error taxonomy for source operations.
//!
//! Connection failures and 5xx responses are retried; a 429 surfaces as
//! `RateLimited` with the publisher's retry-after hint and is never retried
//! here; other statuses surface without retry.  Parse errors on the
//! manifest are fatal to a discovery run, while a bad index file only
//! yields an empty result.  `SizeExceeded` aborts a single download whose
//! advertised length is over the caller's limit.

use vstd::prelude::*;

verus! {

/// Error type for source operations
#[derive(Debug, Clone, PartialEq, Eq)]
pub enum SourceError {
    /// HTTP request failed
    Http(String),
    /// IO error occurred
    Io(String),
    /// Parsing error
    Parse(String),
    /// File not found
    NotFound(String),
    /// Rate limit exceeded; the payload is the retry-after hint in seconds
    RateLimited(u64),
    /// Invalid configuration
    Config(String),
    /// A download's advertised size is over the caller's limit
    SizeExceeded { size: u64, limit: u64 },
    /// Generic source error
    Other(String),
}

impl SourceError {
    /// An exact copy of the error, with its value visible to callers.
    pub fn dup(&self) -> (r: SourceError)
        ensures
            r == *self,
    {
        match self {
            SourceError::Http(m) => SourceError::Http(m.clone()),
            SourceError::Io(m) => SourceError::Io(m.clone()),
            SourceError::Parse(m) => SourceError::Parse(m.clone()),
            SourceError::NotFound(m) => SourceError::NotFound(m.clone()),
            SourceError::RateLimited(secs) => SourceError::RateLimited(*secs),
            SourceError::Config(m) => SourceError::Config(m.clone()),
            SourceError::SizeExceeded { size, limit } => SourceError::SizeExceeded {
                size: *size,
                limit: *limit,
            },
            SourceError::Other(m) => SourceError::Other(m.clone()),
        }
    }
}

/// Result type for source operations
pub type SourceResult<T> = Result<T, SourceError>;

} // verus!
