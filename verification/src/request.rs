//! Construction of requests against the API.
//!
//! A request that can actually be performed carries network machinery, so the
//! performable-request collaborator lives with the surrounding runtime: the
//! core consumes only its response's status code and header pairs.

use vstd::prelude::*;

use crate::error::RequestError;

verus! {

/// The result of handling a request.
pub type RequestResult<T> = Result<T, RequestError>;

/// Can be used to construct new requests to DigitalOcean's API.
pub struct RequestBuilder {}

impl RequestBuilder {
    /// Creates a fresh builder with nothing configured yet.
    pub fn new() -> (r: Self)
        ensures
            r == (RequestBuilder {  }),
    {
        Self {  }
    }
}

impl Default for RequestBuilder {
    /// The default builder is the fresh one.
    fn default() -> (r: Self)
        ensures
            r == (RequestBuilder {  }),
    {
        Self {  }
    }
}

} // verus!
