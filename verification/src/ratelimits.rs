//! The rate-limit governance core.
//!
//! DigitalOcean uses a sliding-window system for its ratelimits. The
//! `Ratelimiter` tracks the quota state the server reports on every response
//! (ceiling, remaining calls, reset instant), predicts whether the next
//! request would be rejected, and decides — according to its policy — whether
//! a cycle should proceed, suspend until a known restriction expires, or
//! signal the restriction to the caller.
//!
//! The decision logic is pure: the current clock reading and the response
//! metadata are handed in as plain values (Unix epoch seconds, a list of
//! header name/value pairs), so every decision is verified for all clock
//! readings and all header sets. The surrounding runtime performs the actual
//! request and the suspension; see the request-cycle driver outside this crate.
//!
//! Ratelimiters are not concurrent and cannot govern multiple requests in
//! parallel: callers must serialize access to a given limiter.

use vstd::prelude::*;

use crate::headers::{dec_val, find_header, header_lookup, is_dec, parse_u64};

verus! {

/// Which of the three required quota headers an error is about.
#[derive(Clone, Copy, Debug, PartialEq, Eq, Structural)]
pub enum HeaderField {
    Limit,
    Remaining,
    Reset,
}

/// A response broke the header protocol: a required quota header was absent,
/// or present but not an unsigned decimal number of the expected width. The
/// server is expected to send all three headers on every response, so this is
/// surfaced to the caller as a hard error, never retried.
#[derive(Clone, Copy, Debug, PartialEq, Eq, Structural)]
pub enum HeaderError {
    Missing(HeaderField),
    Malformed(HeaderField),
}

/// A known rate-limit restriction. You get this struct if you are currently
/// ratelimited but the limiter's policy does not wait restrictions out:
/// under `RespectNonblocking` a request cycle ends with one of these instead of
/// a response.
#[derive(Clone, Copy, Debug, PartialEq, Eq, Structural)]
pub struct Ratelimited {
    /// The instant at which the restriction expires, as Unix epoch seconds.
    pub until: u64,
    /// Whether this was derived from cached local state, i.e. no request was
    /// actually sent, as opposed to a live rejection by the server.
    pub cached: bool,
}

impl Ratelimited {
    /// Returns the time at which this ratelimit expires, as Unix epoch
    /// seconds. A request is not guaranteed to succeed after this time,
    /// because multiple clients may be competing, or the clock may be off.
    pub fn until(&self) -> (r: &u64)
        ensures
            *r == self.until,
    {
        &self.until
    }

    /// Returns true if this was a cached result: no request was actually
    /// sent, but the previous response's headers showed that one would have
    /// been rejected.
    pub fn cached(&self) -> (r: bool)
        ensures
            r == self.cached,
    {
        self.cached
    }
}

/// The ratelimiter's policy on predicted or observed restrictions.
#[derive(Clone, Copy, Debug)]
pub enum RatelimitPolicy {
    /// The default. Wait until the request can be sent; if it is rejected
    /// anyway, wait and try again.
    RespectBlocking,
    /// If currently ratelimited, signal the restriction immediately instead
    /// of performing the request. This is the only policy under which a
    /// `Ratelimited` ever reaches the caller.
    RespectNonblocking,
    /// Ignore all ratelimits; a 429 response is delivered as-is, not retried.
    Ignore,
}

/// The window estimator, tracking the last server-reported quota:
/// the ceiling, the remaining-call count, and the instant at which one slot
/// frees up (none in the initial state, or once a reset has been reconciled
/// away).
#[derive(Clone, Copy, Debug)]
pub struct Ratelimiter {
    /// How the limiter reacts to a restriction; fixed at construction.
    pub policy: RatelimitPolicy,
    /// The total quota ceiling of the rolling window.
    pub ratelimit_limit: u16,
    /// The instant (Unix epoch seconds) at which one slot frees up.
    pub ratelimit_reset: Option<u64>,
    /// Calls left before the next rejection.
    pub ratelimit_remaining: u16,
}

/// The quota state after the passive reset-reconciliation step at clock
/// reading `now`: once the stored reset instant has passed, exactly one slot
/// is freed and the instant is cleared. The window is rolling, so only one
/// request is guaranteed to have expired at that instant — the count is not
/// reset to the ceiling. Freeing saturates at the counter's width.
pub open spec fn reconciled(s: Ratelimiter, now: u64) -> Ratelimiter {
    match s.ratelimit_reset {
        Some(reset) => if now > reset {
            Ratelimiter {
                ratelimit_remaining: if s.ratelimit_remaining < u16::MAX {
                    (s.ratelimit_remaining + 1) as u16
                } else {
                    u16::MAX
                },
                ratelimit_reset: None,
                ..s
            }
        } else {
            s
        },
        None => s,
    }
}

/// The restriction the estimator predicts from its cached state: one is owed
/// exactly when a reset instant is stored and no calls remain. Without a
/// stored instant the limiter is newly created or a previous restriction was
/// reconciled away, and nothing is predicted.
pub open spec fn predicted(s: Ratelimiter) -> Option<Ratelimited> {
    match s.ratelimit_reset {
        Some(reset) => if s.ratelimit_remaining == 0 {
            Some(Ratelimited { until: reset, cached: true })
        } else {
            None
        },
        None => None,
    }
}

/// The name of the header carrying the quota ceiling.
pub open spec fn limit_name() -> Seq<char> {
    "RateLimit-Limit"@
}

/// The name of the header carrying the remaining-call count.
pub open spec fn remaining_name() -> Seq<char> {
    "RateLimit-Remaining"@
}

/// The name of the header carrying the reset instant, in Unix epoch seconds.
pub open spec fn reset_name() -> Seq<char> {
    "RateLimit-Reset"@
}

/// What studying a header set yields: the ceiling, remaining count and reset
/// instant, or — for the first field in that order that breaks the protocol —
/// a missing- or malformed-header error.
pub open spec fn study_outcome(hs: Seq<(String, String)>) -> Result<(u16, u16, u64), HeaderError> {
    match header_lookup(hs, limit_name()) {
        None => Err(HeaderError::Missing(HeaderField::Limit)),
        Some(lv) => if !(is_dec(lv) && dec_val(lv) <= u16::MAX) {
            Err(HeaderError::Malformed(HeaderField::Limit))
        } else {
            match header_lookup(hs, remaining_name()) {
                None => Err(HeaderError::Missing(HeaderField::Remaining)),
                Some(rv) => if !(is_dec(rv) && dec_val(rv) <= u16::MAX) {
                    Err(HeaderError::Malformed(HeaderField::Remaining))
                } else {
                    match header_lookup(hs, reset_name()) {
                        None => Err(HeaderError::Missing(HeaderField::Reset)),
                        Some(sv) => if !(is_dec(sv) && dec_val(sv) <= u64::MAX) {
                            Err(HeaderError::Malformed(HeaderField::Reset))
                        } else {
                            Ok((dec_val(lv) as u16, dec_val(rv) as u16, dec_val(sv) as u64))
                        },
                    }
                },
            }
        },
    }
}

/// The quota state after studying a header set: on success the server's
/// report is authoritative and replaces all three fields; on a header error
/// the state is unchanged.
pub open spec fn studied(s: Ratelimiter, hs: Seq<(String, String)>) -> Ratelimiter {
    match study_outcome(hs) {
        Ok(t) => Ratelimiter {
            policy: s.policy,
            ratelimit_limit: t.0,
            ratelimit_remaining: t.1,
            ratelimit_reset: Some(t.2),
        },
        Err(_) => s,
    }
}

/// The decision taken at the start of a request cycle, on the reconciled
/// state: a predicted restriction is waited out under `RespectBlocking`,
/// signalled under `RespectNonblocking`, and disregarded under `Ignore`.
pub open spec fn begin_decision(s: Ratelimiter) -> CycleDecision {
    match predicted(s) {
        None => CycleDecision::Proceed,
        Some(rl) => match s.policy {
            RatelimitPolicy::RespectBlocking => CycleDecision::Suspend(rl),
            RatelimitPolicy::RespectNonblocking => CycleDecision::Reject(rl),
            RatelimitPolicy::Ignore => CycleDecision::Proceed,
        },
    }
}

/// The verdict after a response whose quota fields studied as `t`: a 429 is
/// retried under `RespectBlocking`, signalled as a live rejection expiring at
/// the freshly studied reset instant under `RespectNonblocking`, and
/// delivered as-is under `Ignore`; every other status is delivered.
pub open spec fn conclude_verdict(status: u16, t: (u16, u16, u64), policy: RatelimitPolicy) -> CycleVerdict {
    if status == 429 {
        match policy {
            RatelimitPolicy::RespectBlocking => CycleVerdict::Retry,
            RatelimitPolicy::RespectNonblocking => CycleVerdict::Reject(
                Ratelimited { until: t.2, cached: false },
            ),
            RatelimitPolicy::Ignore => CycleVerdict::Deliver,
        }
    } else {
        CycleVerdict::Deliver
    }
}

/// What a request cycle should do before performing: proceed straight to
/// the perform step; suspend until the restriction expires and then perform;
/// or signal the restriction to the caller without performing.
#[derive(Clone, Copy, Debug, PartialEq, Eq, Structural)]
pub enum CycleDecision {
    Proceed,
    Suspend(Ratelimited),
    Reject(Ratelimited),
}

/// What a request cycle should do once a response has been studied: deliver the
/// response to the caller, retry the same request with the same credential,
/// or signal the live rejection to the caller.
#[derive(Clone, Copy, Debug, PartialEq, Eq, Structural)]
pub enum CycleVerdict {
    Deliver,
    Retry,
    Reject(Ratelimited),
}

impl Ratelimiter {
    /// Creates a new Ratelimiter with the default blocking policy. It starts
    /// with no limit: the first completed request tells it the situation.
    pub fn new() -> (r: Self)
        ensures
            r.policy is RespectBlocking,
            r.ratelimit_limit == u16::MAX,
            r.ratelimit_reset is None,
            r.ratelimit_remaining == u16::MAX,
    {
        Self {
            policy: RatelimitPolicy::RespectBlocking,
            ratelimit_limit: u16::MAX,
            ratelimit_reset: None,
            ratelimit_remaining: u16::MAX,
        }
    }

    /// Creates a new Ratelimiter with the given policy, otherwise as `new`.
    /// The policy is fixed for the limiter's lifetime.
    pub fn with_policy(policy: RatelimitPolicy) -> (r: Self)
        ensures
            r.policy == policy,
            r.ratelimit_limit == u16::MAX,
            r.ratelimit_reset is None,
            r.ratelimit_remaining == u16::MAX,
    {
        Self {
            policy,
            ratelimit_limit: u16::MAX,
            ratelimit_reset: None,
            ratelimit_remaining: u16::MAX,
        }
    }

    /// If the ratelimit should have expired by `now`, reconcile the cache:
    /// free exactly one slot and clear the stored reset instant. Must run
    /// before every prediction, or an exhausted count would wedge the limiter
    /// after the true window has rolled forward.
    pub fn cache_reset_if_needed(&mut self, now: u64)
        ensures
            *final(self) == reconciled(*old(self), now),
    {
        let expired = match self.ratelimit_reset {
            Some(reset) => now > reset,
            None => false,
        };
        if expired {
            self.ratelimit_remaining = if self.ratelimit_remaining < u16::MAX {
                self.ratelimit_remaining + 1
            } else {
                u16::MAX
            };
            self.ratelimit_reset = None;
        }
    }

    /// Returns the restriction the cache predicts the server would answer
    /// with right now, or nothing when a call is permitted or nothing is
    /// known yet.
    pub fn cache_ratelimited(&self) -> (r: Option<Ratelimited>)
        ensures
            r == predicted(*self),
    {
        match self.ratelimit_reset {
            Some(reset) => if self.ratelimit_remaining == 0 {
                Some(Ratelimited { until: reset, cached: true })
            } else {
                None
            },
            None => None,
        }
    }

    /// Studies the headers of a completed response, picking out the three
    /// ratelimit headers and replacing the quota state with their values. On
    /// a missing or malformed header the state is left untouched and the
    /// protocol violation is surfaced.
    pub fn study_headers(&mut self, headers: &Vec<(String, String)>) -> (r: Result<(), HeaderError>)
        ensures
            *final(self) == studied(*old(self), headers@),
            r is Ok <==> study_outcome(headers@) is Ok,
            r is Err ==> r->Err_0 == study_outcome(headers@)->Err_0,
    {
        let limit: u16 = match find_header(headers, "RateLimit-Limit") {
            None => {
                return Err(HeaderError::Missing(HeaderField::Limit));
            },
            Some(v) => match parse_u64(v.as_str()) {
                None => {
                    return Err(HeaderError::Malformed(HeaderField::Limit));
                },
                Some(n) => if n > u16::MAX as u64 {
                    return Err(HeaderError::Malformed(HeaderField::Limit));
                } else {
                    n as u16
                },
            },
        };
        let remaining: u16 = match find_header(headers, "RateLimit-Remaining") {
            None => {
                return Err(HeaderError::Missing(HeaderField::Remaining));
            },
            Some(v) => match parse_u64(v.as_str()) {
                None => {
                    return Err(HeaderError::Malformed(HeaderField::Remaining));
                },
                Some(n) => if n > u16::MAX as u64 {
                    return Err(HeaderError::Malformed(HeaderField::Remaining));
                } else {
                    n as u16
                },
            },
        };
        let reset: u64 = match find_header(headers, "RateLimit-Reset") {
            None => {
                return Err(HeaderError::Missing(HeaderField::Reset));
            },
            Some(v) => match parse_u64(v.as_str()) {
                None => {
                    return Err(HeaderError::Malformed(HeaderField::Reset));
                },
                Some(n) => n,
            },
        };

        self.ratelimit_limit = limit;
        self.ratelimit_reset = Some(reset);
        self.ratelimit_remaining = remaining;

        Ok(())
    }

    /// Runs the start of a request cycle: reconciles an expired reset, consults
    /// the prediction, and applies the policy. The caller performs the
    /// request on `Proceed`; on `Suspend` it waits until the restriction
    /// expires and then performs; on `Reject` it hands the restriction to
    /// its own caller without performing anything.
    pub fn begin_cycle(&mut self, now: u64) -> (d: CycleDecision)
        ensures
            *final(self) == reconciled(*old(self), now),
            d == begin_decision(reconciled(*old(self), now)),
    {
        self.cache_reset_if_needed(now);
        match self.cache_ratelimited() {
            None => CycleDecision::Proceed,
            Some(rl) => match self.policy {
                RatelimitPolicy::RespectBlocking => CycleDecision::Suspend(rl),
                RatelimitPolicy::RespectNonblocking => CycleDecision::Reject(rl),
                RatelimitPolicy::Ignore => CycleDecision::Proceed,
            },
        }
    }

    /// Runs the end of a request cycle: studies the response's headers — a
    /// protocol violation there is surfaced and the state left untouched —
    /// and then judges the status code. The caller retries the same request
    /// on `Retry`, hands the restriction out on `Reject`, and returns the
    /// response on `Deliver`.
    pub fn conclude_cycle(&mut self, status: u16, headers: &Vec<(String, String)>) -> (r: Result<
        CycleVerdict,
        HeaderError,
    >)
        ensures
            *final(self) == studied(*old(self), headers@),
            match study_outcome(headers@) {
                Err(e) => r matches Err(f) && f == e,
                Ok(t) => r matches Ok(v) && v == conclude_verdict(status, t, old(self).policy),
            },
    {
        match self.study_headers(headers) {
            Err(e) => Err(e),
            Ok(()) => {
                if status == 429 {
                    match self.policy {
                        RatelimitPolicy::RespectBlocking => Ok(CycleVerdict::Retry),
                        RatelimitPolicy::RespectNonblocking => {
                            let until = match self.ratelimit_reset {
                                Some(t) => t,
                                None => unreached(),
                            };
                            Ok(CycleVerdict::Reject(Ratelimited { until, cached: false }))
                        },
                        RatelimitPolicy::Ignore => Ok(CycleVerdict::Deliver),
                    }
                } else {
                    Ok(CycleVerdict::Deliver)
                }
            },
        }
    }
}

/// Law: once the stored reset instant has passed, reconciliation frees
/// exactly one slot and clears the instant; and reconciling again at any
/// later clock reading, with no intervening study, is a no-op.
pub proof fn lemma_reconcile_expired_then_idempotent(s: Ratelimiter, n1: u64, n2: u64)
    requires
        s.ratelimit_reset matches Some(reset) && n1 > reset,
        s.ratelimit_remaining < u16::MAX,
    ensures
        reconciled(s, n1).ratelimit_remaining == s.ratelimit_remaining + 1,
        reconciled(s, n1).ratelimit_reset is None,
        reconciled(reconciled(s, n1), n2) == reconciled(s, n1),
{
}

/// Law: with no calls remaining and a stored reset instant, the estimator
/// predicts a cache-derived restriction expiring at that instant.
pub proof fn lemma_predict_exhausted(s: Ratelimiter)
    requires
        s.ratelimit_remaining == 0,
        s.ratelimit_reset is Some,
    ensures
        predicted(s) matches Some(rl) && rl.until == s.ratelimit_reset->Some_0 && rl.cached,
{
}

/// Law: with calls remaining, the estimator predicts no restriction,
/// whatever the stored reset instant.
pub proof fn lemma_predict_available(s: Ratelimiter)
    requires
        s.ratelimit_remaining > 0,
    ensures
        predicted(s) is None,
{
}

/// Law: studying the same header set twice yields the same quota state as
/// studying it once.
pub proof fn lemma_study_idempotent(s: Ratelimiter, hs: Seq<(String, String)>)
    ensures
        studied(studied(s, hs), hs) == studied(s, hs),
{
}

/// Law: a header set in which some required quota header is absent, and
/// every present one is well-formed, fails the study with a missing-header
/// error.
pub proof fn lemma_study_missing(hs: Seq<(String, String)>)
    requires
        header_lookup(hs, limit_name()) is None || header_lookup(hs, remaining_name()) is None
            || header_lookup(hs, reset_name()) is None,
        header_lookup(hs, limit_name()) matches Some(v) ==> is_dec(v) && dec_val(v) <= u16::MAX,
        header_lookup(hs, remaining_name()) matches Some(v) ==> is_dec(v) && dec_val(v)
            <= u16::MAX,
        header_lookup(hs, reset_name()) matches Some(v) ==> is_dec(v) && dec_val(v) <= u64::MAX,
    ensures
        study_outcome(hs) matches Err(e) && e matches HeaderError::Missing(_),
{
}

/// Law: a header set in which all three required quota headers are present,
/// and some value is not an unsigned decimal number of its field's width,
/// fails the study with a malformed-header error.
pub proof fn lemma_study_malformed(hs: Seq<(String, String)>)
    requires
        header_lookup(hs, limit_name()) is Some,
        header_lookup(hs, remaining_name()) is Some,
        header_lookup(hs, reset_name()) is Some,
        !(is_dec(header_lookup(hs, limit_name())->Some_0) && dec_val(
            header_lookup(hs, limit_name())->Some_0,
        ) <= u16::MAX) || !(is_dec(header_lookup(hs, remaining_name())->Some_0) && dec_val(
            header_lookup(hs, remaining_name())->Some_0,
        ) <= u16::MAX) || !(is_dec(header_lookup(hs, reset_name())->Some_0) && dec_val(
            header_lookup(hs, reset_name())->Some_0,
        ) <= u64::MAX),
    ensures
        study_outcome(hs) matches Err(e) && e matches HeaderError::Malformed(_),
{
}

/// Law: under the fail-fast policy, a cycle that predicts a restriction
/// signals it to the caller at once — the perform step is never reached.
pub proof fn lemma_nonblocking_never_performs(s: Ratelimiter, now: u64)
    requires
        s.policy is RespectNonblocking,
        predicted(reconciled(s, now)) is Some,
    ensures
        begin_decision(reconciled(s, now)) matches CycleDecision::Reject(rl) && rl.cached,
{
}

/// Law: under the block-and-retry policy the limiter never signals a
/// restriction: a predicted one is waited out, a 429 is retried, and a
/// verdict delivers a response to the caller only when its status is not
/// 429.
pub proof fn lemma_blocking_retries(s: Ratelimiter, now: u64, status: u16, t: (u16, u16, u64))
    requires
        s.policy is RespectBlocking,
    ensures
        !(begin_decision(reconciled(s, now)) matches CycleDecision::Reject(_)),
        status == 429 ==> conclude_verdict(status, t, s.policy) is Retry,
        conclude_verdict(status, t, s.policy) is Deliver ==> status != 429,
{
}

} // verus!
