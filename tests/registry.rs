use riot_api::limiter::{acquire_all, RateLimiter};
use riot_api::quota::MalformedQuota;
use riot_api::registry::{RateLimiterRegistry, ScopeState, GLOBAL_SCOPE};

fn header(s: &str) -> Option<Vec<u8>> {
    Some(s.as_bytes().to_vec())
}

#[test]
fn first_configuration_creates_acquired_limiters() {
    let mut reg = RateLimiterRegistry::new();
    assert_eq!(reg.state(GLOBAL_SCOPE), ScopeState::Unconfigured);
    assert_eq!(reg.configure(GLOBAL_SCOPE, &header("20:1,100:120"), 5000), Ok(true));
    assert_eq!(
        reg.state(GLOBAL_SCOPE),
        ScopeState::Configured(vec![
            RateLimiter { interval_ms: 50, ready_at: 5050 },
            RateLimiter { interval_ms: 1200, ready_at: 6200 }
        ])
    );
    assert!(reg.is_configured("global"));
    assert!(!reg.is_configured("/lol/other"));
}

#[test]
fn configuring_twice_keeps_first_limiters() {
    let mut reg = RateLimiterRegistry::new();
    assert_eq!(reg.configure("/a", &header("20:1"), 0), Ok(true));
    let first = reg.state("/a");
    assert_eq!(reg.configure("/a", &header("1:100"), 10), Ok(false));
    assert_eq!(reg.configure("/a", &header("garbage"), 20), Ok(false));
    assert_eq!(reg.configure("/a", &None, 30), Ok(false));
    assert_eq!(reg.state("/a"), first);
}

#[test]
fn two_first_responses_create_one_limiter_set() {
    let mut reg = RateLimiterRegistry::new();
    let results = [
        reg.configure("/scope", &header("10:1"), 100),
        reg.configure("/scope", &header("500:600"), 100),
    ];
    assert_eq!(results.iter().filter(|r| **r == Ok(true)).count(), 1);
    assert_eq!(
        reg.state("/scope"),
        ScopeState::Configured(vec![RateLimiter { interval_ms: 100, ready_at: 200 }])
    );
}

#[test]
fn missing_header_leaves_scope_unconfigured() {
    let mut reg = RateLimiterRegistry::new();
    assert_eq!(reg.configure("/a", &None, 0), Ok(false));
    assert_eq!(reg.state("/a"), ScopeState::Unconfigured);
}

#[test]
fn malformed_header_is_an_error_and_changes_nothing() {
    let mut reg = RateLimiterRegistry::new();
    assert_eq!(reg.configure("/a", &header("20-1"), 0), Err(MalformedQuota));
    assert_eq!(reg.state("/a"), ScopeState::Unconfigured);
    assert_eq!(reg.configure("/a", &header("20:1"), 0), Ok(true));
}

#[test]
fn unconfigured_scope_never_blocks() {
    let mut reg = RateLimiterRegistry::new();
    for t in 0..5 {
        assert_eq!(reg.acquire("/free", t), 0);
    }
    assert_eq!(reg.state("/free"), ScopeState::Unconfigured);
}

#[test]
fn configured_scope_waits_for_every_limiter() {
    let mut reg = RateLimiterRegistry::new();
    reg.configure("/a", &header("20:1,100:120"), 0).unwrap();
    // The first limiter is ready at 50, the second at 1200.
    assert_eq!(reg.acquire("/a", 10), 1190);
    assert_eq!(reg.acquire("/a", 100), 1100);
    assert_eq!(reg.acquire("/a", 1200), 0);
    assert_eq!(
        reg.state("/a"),
        ScopeState::Configured(vec![
            RateLimiter { interval_ms: 50, ready_at: 1250 },
            RateLimiter { interval_ms: 1200, ready_at: 2400 }
        ])
    );
    assert_eq!(reg.acquire("/a", 1250), 1150);
}

#[test]
fn acquire_all_takes_nothing_unless_all_ready() {
    let mut ls = vec![
        RateLimiter { interval_ms: 10, ready_at: 0 },
        RateLimiter { interval_ms: 20, ready_at: 30 },
    ];
    assert_eq!(acquire_all(&mut ls, 5), 25);
    assert_eq!(ls[0].ready_at, 0);
    assert_eq!(acquire_all(&mut ls, 30), 0);
    assert_eq!(ls[0].ready_at, 40);
    assert_eq!(ls[1].ready_at, 50);
    let mut none: Vec<RateLimiter> = Vec::new();
    assert_eq!(acquire_all(&mut none, 0), 0);
}
