//! Model of the liveness supervisor's hardware watchdog.
//!
//! A hardware watchdog resets the device unless it is fed at least once per
//! timeout period; the feed task re-arms itself after every feed. The model
//! below states the timing contract: the feed period is shorter than the
//! timeout by a safety margin, so a live scheduler never lets the watchdog
//! expire, while a stalled scheduler is guaranteed a reset.

use vstd::prelude::*;

verus! {

/// The watchdog forces a device reset if it is not fed for this long.
pub const WATCHDOG_TIMEOUT_MS: u32 = 500;

/// The feed task re-arms itself with this period.
pub const WATCHDOG_FEED_PERIOD_MS: u32 = 100;

/// The hardware watchdog, modelled by its timeout and the time of its most
/// recent feed.
pub struct Watchdog {
    /// When the watchdog was last fed (or started), in milliseconds.
    pub last_feed_ms: u64,
    /// The watchdog's configured timeout in milliseconds.
    pub timeout_ms: u32,
}

impl Watchdog {
    /// The watchdog has expired — and the device resets — when more than the
    /// timeout has passed since the last feed.
    pub open spec fn expired(self, now_ms: u64) -> bool {
        now_ms > self.last_feed_ms + self.timeout_ms
    }

    /// Start the watchdog with the given timeout; starting counts as a feed.
    pub fn start(now_ms: u64, timeout_ms: u32) -> (w: Watchdog)
        ensures
            w.last_feed_ms == now_ms,
            w.timeout_ms == timeout_ms,
    {
        Watchdog { last_feed_ms: now_ms, timeout_ms }
    }

    /// Start the watchdog with the standard timeout. The liveness supervisor
    /// arms the watchdog this way at bring-up, before the first feed of the
    /// self-perpetuating feed chain is due.
    pub fn start_standard(now_ms: u64) -> (w: Watchdog)
        ensures
            w.last_feed_ms == now_ms,
            w.timeout_ms == WATCHDOG_TIMEOUT_MS,
    {
        Watchdog::start(now_ms, WATCHDOG_TIMEOUT_MS)
    }

    /// Feed the watchdog, restarting its timeout period.
    pub fn feed(&mut self, now_ms: u64)
        ensures
            final(self).last_feed_ms == now_ms,
            final(self).timeout_ms == old(self).timeout_ms,
    {
        self.last_feed_ms = now_ms;
    }

    /// Whether the watchdog has expired (i.e. the device has reset) at the
    /// given time.
    pub fn has_expired(&self, now_ms: u64) -> (r: bool)
        ensures
            r == self.expired(now_ms),
    {
        now_ms > self.last_feed_ms && now_ms - self.last_feed_ms > self.timeout_ms as u64
    }
}

/// The feed period undercuts the watchdog timeout by a safety margin of at
/// least four, so scheduling jitter of several feed periods still cannot
/// starve the watchdog.
pub proof fn lemma_feed_period_margin()
    ensures
        4 * WATCHDOG_FEED_PERIOD_MS <= WATCHDOG_TIMEOUT_MS,
        WATCHDOG_FEED_PERIOD_MS < WATCHDOG_TIMEOUT_MS,
{
}

/// A watchdog configured with the standard timeout never expires — the device
/// never resets — along a live feed chain: a sequence of feeds that begins
/// when the watchdog starts and in which each feed comes at most one feed
/// period after the one before. At any moment between the feed `i` and the
/// next (or within one feed period of the latest feed), the watchdog, last
/// fed at feed `i`, is not expired: the feed task is the periodic task whose
/// guaranteed latency stays strictly below the timeout.
pub proof fn lemma_live_feed_chain_never_resets(feeds: Seq<u64>, i: int, check_ms: u64)
    requires
        0 <= i < feeds.len(),
        forall|j: int|
            0 < j < feeds.len() ==> #[trigger] feeds[j] <= feeds[j - 1] + WATCHDOG_FEED_PERIOD_MS,
        feeds[i] <= check_ms,
        i + 1 < feeds.len() ==> check_ms <= feeds[i + 1],
        i + 1 == feeds.len() ==> check_ms <= feeds[i] + WATCHDOG_FEED_PERIOD_MS,
    ensures
        !((Watchdog { last_feed_ms: feeds[i], timeout_ms: WATCHDOG_TIMEOUT_MS }).expired(
            check_ms,
        )),
{
    if i + 1 < feeds.len() {
        assert(feeds[i + 1] <= feeds[i] + WATCHDOG_FEED_PERIOD_MS);
    }
}

/// If the feed task is starved for longer than the watchdog timeout, the
/// watchdog expires and the device resets.
pub proof fn lemma_starvation_resets(w: Watchdog, now_ms: u64)
    requires
        now_ms > w.last_feed_ms + w.timeout_ms,
    ensures
        w.expired(now_ms),
{
}

} // verus!
