//! The closed error taxonomy of the proxy core.

use vstd::prelude::*;

verus! {

/// Every failure the client and cache layers can surface.
///
/// The cache and client never swallow an error: the first failure is
/// propagated unchanged, and no cache entry is written for a failed lookup.
#[derive(Clone, Copy, Debug, PartialEq, Eq, Structural)]
pub enum RiotApiError {
    /// Transport-level failure: connection refused, DNS, timeout.
    Network,
    /// The response body did not match the expected schema.
    Serde,
    /// The upstream answered with a non-success HTTP status; the code is kept
    /// so the caller can map it onto its own response code.
    Status(u16),
    /// The caller-supplied region code is not one of the recognized routing
    /// regions; reported before any upstream call is attempted.
    InvalidRegion,
}

impl RiotApiError {
    /// A fixed description of the error class, for callers that render
    /// messages.
    pub fn kind_message(&self) -> (r: &'static str)
        ensures
            r@ == match *self {
                RiotApiError::Network => "network error"@,
                RiotApiError::Serde => "json parse error"@,
                RiotApiError::Status(_) => "riot api returned non-success status"@,
                RiotApiError::InvalidRegion => "invalid region"@,
            },
    {
        match self {
            RiotApiError::Network => "network error",
            RiotApiError::Serde => "json parse error",
            RiotApiError::Status(_) => "riot api returned non-success status",
            RiotApiError::InvalidRegion => "invalid region",
        }
    }
}

} // verus!
