use vstd::prelude::*;

verus! {

/// Why a rate limiter operation did not succeed.
pub enum RateLimitingError {
    FailedToCreateRateLimiterClient { reason: String },
    SerdeError { reason: String },
    FailedToGetKey { reason: String },
    FailedToSendMessage { reason: String },
}

/// Counts one request of `client` to `bucket`.
pub struct PutRateLimitingStats {
    pub bucket: String,
    pub client: String,
}

/// Asks for the count of requests of `client` to `bucket`.
pub struct GetRateLimitingStats {
    pub bucket: String,
    pub client: String,
}

/// The count of requests of one client to one bucket.
pub struct RateLimitingEntry {
    pub bucket: String,
    pub client: String,
    pub requests: u64,
}

} // verus!
