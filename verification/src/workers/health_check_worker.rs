//! The health monitor's decision core: what one poll cycle does to the
//! shared snapshot pair and how long to sleep before the next cycle. The
//! loop itself — polling both providers over HTTP, sleeping, repeating
//! forever — runs with the caller.

use vstd::prelude::*;

use crate::db::PaymentDb;
use crate::HealthCheckResult;

verus! {

/// Milliseconds between poll cycles after a completed one.
pub const HEALTH_POLL_INTERVAL_MS: u64 = 5_000;

/// Milliseconds of backoff after a failed poll cycle.
pub const HEALTH_POLL_BACKOFF_MS: u64 = 1_000;

/// Applies one poll cycle's result. A cycle that obtained both providers'
/// reports replaces the snapshot pair wholesale and schedules the next
/// poll; a cycle that failed to reach either provider is discarded whole —
/// the previous snapshot stays authoritative — and the monitor backs off.
pub fn apply_health_poll(db: &mut PaymentDb, poll: Option<HealthCheckResult>) -> (delay_ms: u64)
    ensures
        final(db).records() == old(db).records(),
        match poll {
            Some(health) => final(db).current_health() == health && delay_ms
                == HEALTH_POLL_INTERVAL_MS,
            None => final(db).current_health() == old(db).current_health() && delay_ms
                == HEALTH_POLL_BACKOFF_MS,
        },
{
    match poll {
        Some(health) => {
            db.set_health_check(health);
            HEALTH_POLL_INTERVAL_MS
        },
        None => HEALTH_POLL_BACKOFF_MS,
    }
}

} // verus!
