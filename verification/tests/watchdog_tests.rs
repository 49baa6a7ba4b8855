//! Tests for the liveness supervisor's watchdog model.

use robotcar::watchdog::{Watchdog, WATCHDOG_FEED_PERIOD_MS, WATCHDOG_TIMEOUT_MS};

#[test]
fn watchdog_survives_exactly_the_timeout() {
    let w = Watchdog::start(0, WATCHDOG_TIMEOUT_MS);
    assert!(!w.has_expired(0));
    assert!(!w.has_expired(WATCHDOG_TIMEOUT_MS as u64));
    assert!(w.has_expired(WATCHDOG_TIMEOUT_MS as u64 + 1));
}

#[test]
fn feeding_restarts_the_timeout() {
    let mut w = Watchdog::start(0, WATCHDOG_TIMEOUT_MS);
    w.feed(400);
    assert!(!w.has_expired(900));
    assert!(w.has_expired(901));
}

#[test]
fn starting_with_the_standard_timeout() {
    let w = Watchdog::start_standard(42);
    assert_eq!(w.last_feed_ms, 42);
    assert_eq!(w.timeout_ms, WATCHDOG_TIMEOUT_MS);
}

#[test]
fn a_feed_chain_on_the_feed_period_never_expires() {
    let mut w = Watchdog::start_standard(0);
    let mut now: u64 = 0;
    for _ in 0..50 {
        now += WATCHDOG_FEED_PERIOD_MS as u64;
        assert!(!w.has_expired(now));
        w.feed(now);
    }
}

#[test]
fn starvation_past_the_timeout_resets() {
    let mut w = Watchdog::start(0, WATCHDOG_TIMEOUT_MS);
    w.feed(100);
    let starved_until = 100 + WATCHDOG_TIMEOUT_MS as u64 + 1;
    assert!(w.has_expired(starved_until));
}

#[test]
fn feed_period_undercuts_the_timeout_by_the_safety_margin() {
    assert!(4 * WATCHDOG_FEED_PERIOD_MS <= WATCHDOG_TIMEOUT_MS);
    assert!(WATCHDOG_FEED_PERIOD_MS < WATCHDOG_TIMEOUT_MS);
}
