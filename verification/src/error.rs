//! Errors of the request layer.

use vstd::prelude::*;

use crate::ratelimits::{HeaderError, Ratelimited};

verus! {

/// Represents an error handling a particular request, as the limiter signals it
/// to the caller.
#[derive(Clone, Copy, Debug, PartialEq, Eq, Structural)]
pub enum RequestError {
    /// The limiter predicted or observed a rejection under a policy that does
    /// not wait restrictions out. Recoverable: the caller may wait until the
    /// carried instant and retry manually.
    RestrictionSignaled(Ratelimited),
    /// A required rate-limit header was missing or malformed on a response.
    /// The service contract guarantees these headers on every response, so
    /// this is a protocol violation, surfaced and never retried.
    HeaderProtocolViolation(HeaderError),
}

} // verus!
