//! The ledger: an in-memory store of confirmed payments together with the
//! latest health snapshot pair. It supports append, inclusive ranged
//! aggregation and full clear. Concurrency control (the reader/writer lock
//! around this structure) lives with the caller; every operation here sees
//! and leaves a consistent whole.

use vstd::prelude::*;

use crate::json::{format_summary_json, spec_summary_json};
use crate::{HealthCheck, HealthCheckResult, PaymentType};

verus! {

/// One confirmed payment. `amount_cents` is the amount in hundredths of the
/// provider currency unit; `requested_at` is the confirmation timestamp in
/// milliseconds, assigned by the dispatch worker at confirmation time.
#[derive(Clone, Copy, Debug, PartialEq, Eq, Structural)]
pub struct Payment {
    pub amount_cents: i64,
    pub requested_at: i64,
    pub payment_type: PaymentType,
}

/// Aggregates of one ranged query: per provider, how many records matched
/// and the sum of the absolute values of their amounts, in hundredths.
#[derive(Clone, Copy, Debug, PartialEq, Eq, Structural)]
pub struct Summary {
    pub default_requests: u64,
    pub default_amount_cents: u128,
    pub fallback_requests: u64,
    pub fallback_amount_cents: u128,
}

/// Whether a record's confirmation timestamp lies in [start, end],
/// inclusive on both bounds.
pub open spec fn in_range(p: Payment, start: int, end: int) -> bool {
    start <= p.requested_at <= end
}

/// Whether a record belongs to provider t and lies in [start, end].
pub open spec fn record_matches(p: Payment, t: PaymentType, start: int, end: int) -> bool {
    p.payment_type == t && in_range(p, start, end)
}

/// How many records of provider t have a timestamp in [start, end].
pub open spec fn count_matching(s: Seq<Payment>, t: PaymentType, start: int, end: int) -> nat
    decreases s.len(),
{
    if s.len() == 0 {
        0
    } else {
        count_matching(s.drop_last(), t, start, end) + if record_matches(
            s.last(),
            t,
            start,
            end,
        ) {
            1nat
        } else {
            0nat
        }
    }
}

/// The absolute value of an amount.
pub open spec fn abs_cents(a: int) -> nat {
    if a >= 0 {
        a as nat
    } else {
        (-a) as nat
    }
}

/// The sum of the absolute amounts of the records of provider t with a
/// timestamp in [start, end].
pub open spec fn sum_matching(s: Seq<Payment>, t: PaymentType, start: int, end: int) -> nat
    decreases s.len(),
{
    if s.len() == 0 {
        0
    } else {
        sum_matching(s.drop_last(), t, start, end) + if record_matches(s.last(), t, start, end) {
            abs_cents(s.last().amount_cents as int)
        } else {
            0nat
        }
    }
}

/// The health snapshot pair before the first poll completes: both providers
/// assumed not failing, with a zero latency floor.
pub open spec fn initial_health() -> HealthCheckResult {
    HealthCheckResult {
        default_health_check: HealthCheck { failing: false, min_response_time: 0 },
        fallback_health_check: HealthCheck { failing: false, min_response_time: 0 },
    }
}

/// The ledger plus the latest health snapshot pair.
pub struct PaymentDb {
    payments: Vec<Payment>,
    health: HealthCheckResult,
}

impl PaymentDb {
    /// The recorded payments, oldest first.
    pub closed spec fn records(&self) -> Seq<Payment> {
        self.payments@
    }

    /// The latest health snapshot pair.
    pub closed spec fn current_health(&self) -> HealthCheckResult {
        self.health
    }

    /// An empty ledger with the default health snapshot.
    pub fn new() -> (db: PaymentDb)
        ensures
            db.records() == Seq::<Payment>::empty(),
            db.current_health() == initial_health(),
    {
        PaymentDb {
            payments: Vec::new(),
            health: HealthCheckResult {
                default_health_check: HealthCheck { failing: false, min_response_time: 0 },
                fallback_health_check: HealthCheck { failing: false, min_response_time: 0 },
            },
        }
    }

    /// Replaces the health snapshot pair wholesale.
    pub fn set_health_check(&mut self, health_check: HealthCheckResult)
        ensures
            final(self).current_health() == health_check,
            final(self).records() == old(self).records(),
    {
        self.health = health_check;
    }

    /// Reads the latest health snapshot pair.
    pub fn get_health_check(&self) -> (h: HealthCheckResult)
        ensures
            h == self.current_health(),
    {
        self.health
    }

    /// Appends one confirmed payment.
    pub fn insert(&mut self, payment: Payment)
        ensures
            final(self).records() == old(self).records().push(payment),
            final(self).current_health() == old(self).current_health(),
    {
        self.payments.push(payment);
    }

    /// Removes every record; the health snapshot is untouched.
    pub fn clear(&mut self)
        ensures
            final(self).records() == Seq::<Payment>::empty(),
            final(self).current_health() == old(self).current_health(),
    {
        self.payments.clear();
        proof {
            assert(self.payments@ =~= Seq::<Payment>::empty());
        }
    }

    /// Counts and sums, per provider, the records whose timestamp lies in
    /// [start_timestamp, end_timestamp], inclusive on both bounds.
    pub fn query_range(&self, start_timestamp: i64, end_timestamp: i64) -> (summary: Summary)
        ensures
            summary.default_requests == count_matching(
                self.records(),
                PaymentType::Default,
                start_timestamp as int,
                end_timestamp as int,
            ),
            summary.default_amount_cents == sum_matching(
                self.records(),
                PaymentType::Default,
                start_timestamp as int,
                end_timestamp as int,
            ),
            summary.fallback_requests == count_matching(
                self.records(),
                PaymentType::Fallback,
                start_timestamp as int,
                end_timestamp as int,
            ),
            summary.fallback_amount_cents == sum_matching(
                self.records(),
                PaymentType::Fallback,
                start_timestamp as int,
                end_timestamp as int,
            ),
    {
        let ghost start = start_timestamp as int;
        let ghost end = end_timestamp as int;
        let mut default_requests: u64 = 0;
        let mut default_amount: u128 = 0;
        let mut fallback_requests: u64 = 0;
        let mut fallback_amount: u128 = 0;
        let mut i: usize = 0;
        let n = self.payments.len();
        while i < n
            invariant
                i <= n,
                n == self.payments@.len(),
                start == start_timestamp as int,
                end == end_timestamp as int,
                default_requests == count_matching(
                    self.payments@.take(i as int),
                    PaymentType::Default,
                    start,
                    end,
                ),
                default_amount == sum_matching(
                    self.payments@.take(i as int),
                    PaymentType::Default,
                    start,
                    end,
                ),
                fallback_requests == count_matching(
                    self.payments@.take(i as int),
                    PaymentType::Fallback,
                    start,
                    end,
                ),
                fallback_amount == sum_matching(
                    self.payments@.take(i as int),
                    PaymentType::Fallback,
                    start,
                    end,
                ),
                default_requests <= i,
                fallback_requests <= i,
                default_amount <= i as int * 0x8000_0000_0000_0000,
                fallback_amount <= i as int * 0x8000_0000_0000_0000,
            decreases n - i,
        {
            let p = self.payments[i];
            proof {
                let pre = self.payments@.take(i as int);
                let post = self.payments@.take(i as int + 1);
                assert(post.drop_last() =~= pre);
                assert(post.last() == p);
                assert((i as int + 1) * 0x8000_0000_0000_0000 == i as int * 0x8000_0000_0000_0000
                    + 0x8000_0000_0000_0000);
            }
            if p.requested_at >= start_timestamp && p.requested_at <= end_timestamp {
                let amount = abs_amount(p.amount_cents);
                match p.payment_type {
                    PaymentType::Default => {
                        default_requests = default_requests + 1;
                        default_amount = default_amount + amount;
                    },
                    PaymentType::Fallback => {
                        fallback_requests = fallback_requests + 1;
                        fallback_amount = fallback_amount + amount;
                    },
                }
            }
            i = i + 1;
        }
        proof {
            assert(self.payments@.take(n as int) =~= self.payments@);
        }
        Summary {
            default_requests: default_requests,
            default_amount_cents: default_amount,
            fallback_requests: fallback_requests,
            fallback_amount_cents: fallback_amount,
        }
    }

    /// Runs a ranged query and renders its summary as the fixed-shape JSON
    /// body the protocol answers a Get with.
    pub fn get_payments_by_date_range(&self, start_timestamp: i64, end_timestamp: i64) -> (response:
        String)
        ensures
            response@ == spec_summary_json(
                count_matching(self.records(), PaymentType::Default, start_timestamp as int, end_timestamp as int),
                sum_matching(self.records(), PaymentType::Default, start_timestamp as int, end_timestamp as int),
                count_matching(self.records(), PaymentType::Fallback, start_timestamp as int, end_timestamp as int),
                sum_matching(self.records(), PaymentType::Fallback, start_timestamp as int, end_timestamp as int),
            ),
    {
        let summary = self.query_range(start_timestamp, end_timestamp);
        format_summary_json(
            summary.default_requests,
            summary.default_amount_cents,
            summary.fallback_requests,
            summary.fallback_amount_cents,
        )
    }
}

/// The absolute value of a signed amount, widened so that even the most
/// negative value has one.
fn abs_amount(a: i64) -> (r: u128)
    ensures
        r == abs_cents(a as int),
{
    if a >= 0 {
        a as u128
    } else {
        ((-(a + 1)) as u128) + 1
    }
}

/// An empty ledger matches nothing: a query over any bounds, for either
/// provider, counts zero records and sums a zero amount. With `clear`
/// leaving the ledger empty, this is what any query after a purge returns.
pub proof fn lemma_empty_query_is_zero(t: PaymentType, start: int, end: int)
    ensures
        count_matching(Seq::<Payment>::empty(), t, start, end) == 0,
        sum_matching(Seq::<Payment>::empty(), t, start, end) == 0,
{
}

} // verus!
