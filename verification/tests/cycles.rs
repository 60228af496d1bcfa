//! Request cycles under the three policies, driven as the surrounding runtime
//! drives them: begin a cycle, perform (simulated here by a scripted list of
//! responses), conclude, and act on the verdict.

use digitalocean::ratelimits::{
    CycleVerdict, CycleDecision, RatelimitPolicy, Ratelimiter,
};

fn quota_headers(limit: &str, remaining: &str, reset: &str) -> Vec<(String, String)> {
    vec![
        ("RateLimit-Limit".to_string(), limit.to_string()),
        ("RateLimit-Remaining".to_string(), remaining.to_string()),
        ("RateLimit-Reset".to_string(), reset.to_string()),
    ]
}

/// Drives a limiter against a script of (status, headers) responses, as the
/// runtime's execute loop does, and returns the delivered status together
/// with how many requests were performed and how many seconds were slept.
fn drive(
    limiter: &mut Ratelimiter,
    mut now: u64,
    script: &[(u16, Vec<(String, String)>)],
) -> Result<(u16, usize, u64), CycleDecision> {
    let mut performed = 0usize;
    let mut slept = 0u64;
    loop {
        match limiter.begin_cycle(now) {
            CycleDecision::Proceed => {}
            CycleDecision::Suspend(r) => {
                let until = *r.until();
                if until > now {
                    slept += until - now;
                    now = until;
                }
                // the restriction instant itself must pass before the cache
                // would reconcile; performing is allowed right away
            }
            d @ CycleDecision::Reject(_) => return Err(d),
        }
        let (status, headers) = &script[performed];
        performed += 1;
        match limiter.conclude_cycle(*status, headers).expect("well-formed headers") {
            CycleVerdict::Deliver => return Ok((*status, performed, slept)),
            CycleVerdict::Retry => continue,
            CycleVerdict::Reject(r) => return Err(CycleDecision::Reject(r)),
        }
    }
}

#[test]
fn failfast_rejects_from_cache_without_performing() {
    // ceiling 5000, nothing remaining, reset 60s ahead, fail-fast policy
    let now = 1_700_000_000u64;
    let mut limiter = Ratelimiter::with_policy(RatelimitPolicy::RespectNonblocking);
    limiter.study_headers(&quota_headers("5000", "0", &(now + 60).to_string()))
        .unwrap();
    let script: [(u16, Vec<(String, String)>); 0] = [];
    match drive(&mut limiter, now, &script) {
        Err(CycleDecision::Reject(r)) => {
            assert!(r.cached());
            assert_eq!(*r.until(), now + 60);
        }
        other => panic!("expected a rejection, got {:?}", other),
    }
    // no request was performed: the script was never touched
}

#[test]
fn failfast_signals_a_live_rejection_on_429() {
    let now = 1_700_000_000u64;
    let mut limiter = Ratelimiter::with_policy(RatelimitPolicy::RespectNonblocking);
    limiter.study_headers(&quota_headers("5000", "2", &(now + 600).to_string()))
        .unwrap();
    // the cache predicts nothing, but the server rejects anyway
    let script = [(429u16, quota_headers("5000", "0", &(now + 30).to_string()))];
    match drive(&mut limiter, now, &script) {
        Err(CycleDecision::Reject(r)) => {
            assert!(!r.cached());
            assert_eq!(*r.until(), now + 30);
        }
        other => panic!("expected a rejection, got {:?}", other),
    }
}

#[test]
fn ignore_delivers_a_429_without_retrying() {
    let now = 1_700_000_000u64;
    let mut limiter = Ratelimiter::with_policy(RatelimitPolicy::Ignore);
    limiter.study_headers(&quota_headers("5000", "0", &(now + 60).to_string()))
        .unwrap();
    let script = [(429u16, quota_headers("5000", "0", &(now + 60).to_string()))];
    let (status, performed, slept) = drive(&mut limiter, now, &script).unwrap();
    assert_eq!(status, 429);
    assert_eq!(performed, 1);
    assert_eq!(slept, 0);
}

#[test]
fn ignore_delivers_a_success_and_studies_it() {
    // remaining 3 before the call; the response reports 2 remaining
    let now = 1_700_000_000u64;
    let mut limiter = Ratelimiter::with_policy(RatelimitPolicy::Ignore);
    limiter.study_headers(&quota_headers("5000", "3", &(now + 3600).to_string()))
        .unwrap();
    let script = [(200u16, quota_headers("5000", "2", &(now + 3600).to_string()))];
    let (status, performed, _) = drive(&mut limiter, now, &script).unwrap();
    assert_eq!(status, 200);
    assert_eq!(performed, 1);
    assert_eq!(limiter.ratelimit_remaining, 2);
}

#[test]
fn blocking_retries_until_a_non_429_status() {
    let now = 1_700_000_000u64;
    let mut limiter = Ratelimiter::with_policy(RatelimitPolicy::RespectBlocking);
    limiter.study_headers(&quota_headers("5000", "5", &(now + 3600).to_string()))
        .unwrap();
    // the server keeps rejecting; it succeeds on the third attempt
    let reset = (now + 1).to_string();
    let script = [
        (429u16, quota_headers("5000", "0", &reset)),
        (429u16, quota_headers("5000", "0", &reset)),
        (200u16, quota_headers("5000", "4", &(now + 3600).to_string())),
    ];
    let (status, performed, _) = drive(&mut limiter, now, &script).unwrap();
    assert_eq!(status, 200);
    assert_eq!(performed, 3);
}

#[test]
fn blocking_waits_out_a_429_then_delivers() {
    // remaining 1; the first call is rejected with a reset one second ahead;
    // the retry waits that second out and succeeds
    let now = 1_700_000_000u64;
    let mut limiter = Ratelimiter::with_policy(RatelimitPolicy::RespectBlocking);
    limiter.study_headers(&quota_headers("5000", "1", &(now + 3600).to_string()))
        .unwrap();
    let script = [
        (429u16, quota_headers("5000", "0", &(now + 1).to_string())),
        (200u16, quota_headers("5000", "1", &(now + 3600).to_string())),
    ];
    let (status, performed, slept) = drive(&mut limiter, now, &script).unwrap();
    assert_eq!(status, 200);
    assert_eq!(performed, 2);
    assert_eq!(slept, 1);
    assert_eq!(limiter.ratelimit_remaining, 1);
    assert_eq!(limiter.ratelimit_reset, Some(now + 3600));
}

#[test]
fn blocking_suspends_on_a_cached_prediction() {
    let now = 1_700_000_000u64;
    let mut limiter = Ratelimiter::with_policy(RatelimitPolicy::RespectBlocking);
    limiter.study_headers(&quota_headers("5000", "0", &(now + 60).to_string()))
        .unwrap();
    match limiter.begin_cycle(now) {
        CycleDecision::Suspend(r) => {
            assert!(r.cached());
            assert_eq!(*r.until(), now + 60);
        }
        other => panic!("expected a suspension, got {:?}", other),
    }
}

#[test]
fn a_cycle_reconciles_an_expired_reset_before_predicting() {
    // exhausted, but the reset instant has passed: the freed slot lets the
    // cycle proceed instead of suspending
    let now = 1_700_000_000u64;
    let mut limiter = Ratelimiter::with_policy(RatelimitPolicy::RespectBlocking);
    limiter.study_headers(&quota_headers("5000", "0", &(now - 10).to_string()))
        .unwrap();
    assert_eq!(limiter.begin_cycle(now), CycleDecision::Proceed);
    assert_eq!(limiter.ratelimit_remaining, 1);
    assert_eq!(limiter.ratelimit_reset, None);
}
