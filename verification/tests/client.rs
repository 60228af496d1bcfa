//! The caller-facing client wrapper.

use digitalocean::ratelimits::{CycleVerdict, CycleDecision};
use digitalocean::request::RequestBuilder;
use digitalocean::DigitalOcean;

fn quota_headers(limit: &str, remaining: &str, reset: &str) -> Vec<(String, String)> {
    vec![
        ("RateLimit-Limit".to_string(), limit.to_string()),
        ("RateLimit-Remaining".to_string(), remaining.to_string()),
        ("RateLimit-Reset".to_string(), reset.to_string()),
    ]
}

#[test]
fn new_keeps_the_key_and_root() {
    let client = DigitalOcean::new("example-token".to_string());
    assert_eq!(client.key().as_str(), "example-token");
    assert_eq!(client.root().as_str(), "https://api.digitalocean.com/v2/");
}

#[test]
fn set_key_replaces_the_credential_atomically() {
    let mut client = DigitalOcean::new("old-key".to_string());
    client.set_key("new-key".to_string());
    assert_eq!(client.key().as_str(), "new-key");
}

#[test]
fn the_client_limits_its_own_cycles() {
    let now = 1_700_000_000u64;
    let mut client = DigitalOcean::new("key".to_string());
    // nothing known yet: the first cycle proceeds
    assert_eq!(client.begin_cycle(now), CycleDecision::Proceed);
    let verdict = client
        .conclude_cycle(200, &quota_headers("5000", "0", &(now + 60).to_string()))
        .unwrap();
    assert_eq!(verdict, CycleVerdict::Deliver);
    // the studied response exhausted the quota: the default policy suspends
    match client.begin_cycle(now) {
        CycleDecision::Suspend(r) => assert_eq!(*r.until(), now + 60),
        other => panic!("expected a suspension, got {:?}", other),
    }
}

#[test]
fn a_builder_can_be_made() {
    let _ = RequestBuilder::new();
    let _ = RequestBuilder::default();
}
