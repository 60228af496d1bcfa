//! A DigitalOcean API client library centred on its rate-limit governance
//! core: a window estimator that tracks the server-reported quota, a policy
//! that decides how to react to a predicted or observed rejection, and the
//! cycle logic that governs a single request. The decision
//! logic is pure: the current time and the response metadata are handed in
//! as plain values, so every decision is verified for all clock readings and
//! all header sets. Performing requests and sleeping out restrictions is the
//! surrounding runtime's job.

use vstd::prelude::*;

pub mod error;
pub mod headers;
pub mod ratelimits;
pub mod request;

use crate::ratelimits::{
    begin_decision, reconciled, studied, study_outcome, conclude_verdict, CycleVerdict,
    CycleDecision, HeaderError, Ratelimiter,
};

verus! {

/// A DigitalOcean API client that can be used for making authenticated
/// requests to DigitalOcean's API. It owns the credential and a rate
/// limiter per credential context; access must be serialized by the caller,
/// since the limiter's quota state is not safe for concurrent mutation.
pub struct DigitalOcean {
    /// API key
    key: String,
    /// API root (i.e. https://api.digitalocean.com/v2/)
    root: String,
    ratelimiter: Ratelimiter,
}

impl DigitalOcean {
    /// The credential forwarded to every performed request.
    pub closed spec fn spec_key(&self) -> Seq<char> {
        self.key@
    }

    /// The root under which every endpoint URL is built.
    pub closed spec fn spec_root(&self) -> Seq<char> {
        self.root@
    }

    /// The state of the client's rate limiter.
    pub closed spec fn spec_limiter(&self) -> Ratelimiter {
        self.ratelimiter
    }

    /// Creates a new DigitalOcean API client using the provided API key. The
    /// returned client can be used for making requests to authenticated
    /// endpoints, but it won't perform any operations until you tell it to.
    pub fn new(key: String) -> (r: Self)
        ensures
            r.spec_key() == key@,
            r.spec_root() == "https://api.digitalocean.com/v2/"@,
            r.spec_limiter().policy is RespectBlocking,
            r.spec_limiter().ratelimit_reset is None,
    {
        Self {
            key,
            root: String::from_str("https://api.digitalocean.com/v2/"),
            ratelimiter: Ratelimiter::new(),
        }
    }

    /// Sets a new API key for this client. This will cause all new
    /// authenticated requests to use the new key. The old key is dropped
    /// immediately and cannot be retrieved; the limiter's quota state carries
    /// over untouched.
    pub fn set_key(&mut self, key: String)
        ensures
            final(self).spec_key() == key@,
            final(self).spec_root() == old(self).spec_root(),
            final(self).spec_limiter() == old(self).spec_limiter(),
    {
        self.key = key;
    }

    /// The API key forwarded to performed requests.
    pub fn key(&self) -> (r: &String)
        ensures
            r@ == self.spec_key(),
    {
        &self.key
    }

    /// The API root under which endpoint URLs are built.
    pub fn root(&self) -> (r: &String)
        ensures
            r@ == self.spec_root(),
    {
        &self.root
    }

    /// Runs the start of a request cycle on this client's limiter; see
    /// `Ratelimiter::begin_cycle`.
    pub fn begin_cycle(&mut self, now: u64) -> (d: CycleDecision)
        ensures
            final(self).spec_key() == old(self).spec_key(),
            final(self).spec_root() == old(self).spec_root(),
            final(self).spec_limiter() == reconciled(old(self).spec_limiter(), now),
            d == begin_decision(reconciled(old(self).spec_limiter(), now)),
    {
        self.ratelimiter.begin_cycle(now)
    }

    /// Runs the end of a request cycle on this client's limiter; see
    /// `Ratelimiter::conclude_cycle`.
    pub fn conclude_cycle(&mut self, status: u16, headers: &Vec<(String, String)>) -> (r: Result<
        CycleVerdict,
        HeaderError,
    >)
        ensures
            final(self).spec_key() == old(self).spec_key(),
            final(self).spec_root() == old(self).spec_root(),
            final(self).spec_limiter() == studied(old(self).spec_limiter(), headers@),
            match study_outcome(headers@) {
                Err(e) => r matches Err(f) && f == e,
                Ok(t) => r matches Ok(v) && v == conclude_verdict(
                    status,
                    t,
                    old(self).spec_limiter().policy,
                ),
            },
    {
        self.ratelimiter.conclude_cycle(status, headers)
    }
}

} // verus!
