//! The endpoint selector: a pure decision over the latest health snapshot
//! pair. It never blocks, retries or mutates state.

use vstd::prelude::*;

use crate::{HealthCheck, HealthCheckResult, PaymentType};

verus! {

/// The viability threshold in milliseconds: a provider reporting a higher
/// latency floor is not routed to.
pub const T_CLIENT: u32 = 10_000;

/// Whether one provider is currently eligible for routing: it does not
/// report itself failing and its latency floor is within the threshold.
pub open spec fn spec_viable(h: HealthCheck) -> bool {
    !h.failing && h.min_response_time <= T_CLIENT
}

/// Picks the provider a payment should go to, evaluated fresh on every
/// dispatch attempt: the default provider whenever it is viable (it is
/// preferred), the fallback when only the fallback is, and none when
/// neither is — the caller must wait, not submit.
pub fn select_endpoint(health: &HealthCheckResult) -> (choice: Option<PaymentType>)
    ensures
        choice == (if spec_viable(health.default_health_check) {
            Some(PaymentType::Default)
        } else if spec_viable(health.fallback_health_check) {
            Some(PaymentType::Fallback)
        } else {
            None::<PaymentType>
        }),
{
    let d_viable = !health.default_health_check.failing
        && health.default_health_check.min_response_time <= T_CLIENT;
    let f_viable = !health.fallback_health_check.failing
        && health.fallback_health_check.min_response_time <= T_CLIENT;
    match (d_viable, f_viable) {
        (true, _) => Some(PaymentType::Default),
        (false, true) => Some(PaymentType::Fallback),
        (false, false) => None,
    }
}

} // verus!
