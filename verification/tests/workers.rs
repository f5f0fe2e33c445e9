use moonshine_processor::cmd::{Command, Effect};
use moonshine_processor::db::PaymentDb;
use moonshine_processor::processor::Payment;
use moonshine_processor::workers::endpoint_selector::select_endpoint;
use moonshine_processor::workers::health_check_worker::apply_health_poll;
use moonshine_processor::workers::payment_worker::{classify_response, confirmation_timestamp,
    settle_attempt, SubmitOutcome};
use moonshine_processor::{HealthCheck, HealthCheckResult, PaymentType};

fn health(default_failing: bool, default_rt: u32, fallback_failing: bool, fallback_rt: u32)
    -> HealthCheckResult {
    HealthCheckResult {
        default_health_check: HealthCheck { failing: default_failing, min_response_time: default_rt },
        fallback_health_check: HealthCheck { failing: fallback_failing, min_response_time: fallback_rt },
    }
}

fn payment(id: &str, amount_cents: i64) -> Payment {
    Payment { correlation_id: id.as_bytes().to_vec(), amount_cents }
}

#[test]
fn selector_prefers_viable_default() {
    // Whatever the fallback reports, a viable default wins.
    for fallback in [health(false, 5000, false, 0).fallback_health_check,
        HealthCheck { failing: true, min_response_time: 0 },
        HealthCheck { failing: false, min_response_time: 99_999 }] {
        let snapshot = HealthCheckResult {
            default_health_check: HealthCheck { failing: false, min_response_time: 5000 },
            fallback_health_check: fallback,
        };
        assert_eq!(select_endpoint(&snapshot), Some(PaymentType::Default));
    }
}

#[test]
fn selector_falls_back_when_default_fails() {
    let snapshot = health(true, 0, false, 3000);
    assert_eq!(select_endpoint(&snapshot), Some(PaymentType::Fallback));
}

#[test]
fn selector_rejects_when_both_fail() {
    assert_eq!(select_endpoint(&health(true, 0, true, 0)), None);
}

#[test]
fn selector_treats_slow_provider_as_not_viable() {
    // 10 000 ms is the ceiling: on it is viable, above it is not.
    assert_eq!(select_endpoint(&health(false, 10_000, true, 0)), Some(PaymentType::Default));
    assert_eq!(select_endpoint(&health(false, 10_001, false, 1)), Some(PaymentType::Fallback));
}

#[test]
fn classification_of_provider_answers() {
    assert_eq!(classify_response(Some(200)), SubmitOutcome::Accepted);
    assert_eq!(classify_response(Some(201)), SubmitOutcome::Accepted);
    assert_eq!(classify_response(Some(422)), SubmitOutcome::Duplicate);
    assert_eq!(classify_response(Some(400)), SubmitOutcome::TransientError);
    assert_eq!(classify_response(Some(500)), SubmitOutcome::TransientError);
    assert_eq!(classify_response(None), SubmitOutcome::TransientError);
}

#[test]
fn two_transient_failures_then_fallback_success_record_once() {
    let mut db = PaymentDb::new();
    let p = payment("c7", 777);
    // Attempt 1 and 2: transient errors; the worker must keep the payment.
    assert!(!settle_attempt(&mut db, &p, PaymentType::Default, 1000, SubmitOutcome::TransientError));
    assert!(!settle_attempt(&mut db, &p, PaymentType::Default, 2000, SubmitOutcome::TransientError));
    // Health moved the selector to the fallback; attempt 3 succeeds there.
    assert!(settle_attempt(&mut db, &p, PaymentType::Fallback, 3000, SubmitOutcome::Accepted));
    let summary = db.query_range(0, 10_000);
    assert_eq!(summary.default_requests, 0);
    assert_eq!(summary.fallback_requests, 1);
    assert_eq!(summary.fallback_amount_cents, 777);
}

#[test]
fn duplicate_rejection_writes_no_record() {
    let mut db = PaymentDb::new();
    let p = payment("c3", 123);
    let done = settle_attempt(&mut db, &p, PaymentType::Default, 1000, SubmitOutcome::Duplicate);
    assert!(done); // terminal: the worker stops retrying
    let summary = db.query_range(i64::MIN, i64::MAX);
    assert_eq!(summary.default_requests, 0);
    assert_eq!(summary.fallback_requests, 0);
}

#[test]
fn hundred_accepted_payments_record_exactly_once_each() {
    let mut db = PaymentDb::new();
    for k in 0..100i64 {
        let p = payment(&format!("c{}", k), 100);
        // A transient failure first on every other payment: no effect.
        if k % 2 == 0 {
            settle_attempt(&mut db, &p, PaymentType::Default, k, SubmitOutcome::TransientError);
        }
        settle_attempt(&mut db, &p, PaymentType::Default, k, SubmitOutcome::Accepted);
    }
    let summary = db.query_range(0, 1000);
    assert_eq!(summary.default_requests, 100);
    assert_eq!(summary.default_amount_cents, 10_000);
}

#[test]
fn submit_while_default_healthy_lands_on_default() {
    // Submit {correlationId: "c1", amount: 19.90} while the default
    // provider is healthy, then query a range covering now.
    let mut db = PaymentDb::new();
    let body = moonshine_processor::processor::encode_payment(&payment("c1", 1990));
    let enqueued = match Command::from_data(42, &body).unwrap().execute(&mut db) {
        Effect::Enqueue(p) => p,
        _ => panic!("a Put must enqueue"),
    };
    let provider = select_endpoint(&db.get_health_check()).unwrap();
    assert_eq!(provider, PaymentType::Default);
    settle_attempt(&mut db, &enqueued, provider, 5_000, SubmitOutcome::Accepted);
    assert_eq!(
        db.get_payments_by_date_range(0, 10_000),
        "{\"default\":{\"totalRequests\":1,\"totalAmount\":19.90},\"fallback\":{\"totalRequests\":0,\"totalAmount\":0.00}}"
    );
}

#[test]
fn submit_while_default_failing_lands_on_fallback() {
    // Default reports failing=true, fallback healthy; submit
    // {correlationId: "c2", amount: 5.00}.
    let mut db = PaymentDb::new();
    db.set_health_check(health(true, 0, false, 100));
    let provider = select_endpoint(&db.get_health_check()).unwrap();
    assert_eq!(provider, PaymentType::Fallback);
    settle_attempt(&mut db, &payment("c2", 500), provider, 5_000, SubmitOutcome::Accepted);
    assert_eq!(
        db.get_payments_by_date_range(0, 10_000),
        "{\"default\":{\"totalRequests\":0,\"totalAmount\":0.00},\"fallback\":{\"totalRequests\":1,\"totalAmount\":5.00}}"
    );
}

#[test]
fn poll_result_replaces_snapshot_and_schedules_next_poll() {
    let mut db = PaymentDb::new();
    let delay = apply_health_poll(&mut db, Some(health(true, 9, false, 4)));
    assert_eq!(delay, 5_000);
    assert!(db.get_health_check().default_health_check.failing);
    assert_eq!(db.get_health_check().fallback_health_check.min_response_time, 4);
}

#[test]
fn failed_poll_keeps_last_snapshot_and_backs_off() {
    let mut db = PaymentDb::new();
    db.set_health_check(health(true, 9, false, 4));
    let delay = apply_health_poll(&mut db, None);
    assert_eq!(delay, 1_000);
    assert!(db.get_health_check().default_health_check.failing);
    assert_eq!(db.get_health_check().fallback_health_check.min_response_time, 4);
}

#[test]
fn confirmation_timestamps_are_whole_seconds() {
    let t = confirmation_timestamp();
    assert_eq!(t % 1000, 0);
    // The clock reads a date after 2020-01-01 and before year 262142.
    assert!(t > 1_577_836_800_000);
    assert!(t < 9_000_000_000_001_000);
}

#[test]
fn purge_command_clears_ledger() {
    let mut db = PaymentDb::new();
    settle_attempt(&mut db, &payment("c5", 100), PaymentType::Default, 10, SubmitOutcome::Accepted);
    let effect = Command::from_data(44, &Vec::new()).unwrap().execute(&mut db);
    assert!(matches!(effect, Effect::Done));
    assert_eq!(db.query_range(i64::MIN, i64::MAX).default_requests, 0);
}

#[test]
fn get_command_responds_with_summary_json() {
    let mut db = PaymentDb::new();
    settle_attempt(&mut db, &payment("c6", 25), PaymentType::Default, 50, SubmitOutcome::Accepted);
    let mut body: Vec<u8> = Vec::new();
    moonshine_processor::wire::push_i64_be(&mut body, 0);
    moonshine_processor::wire::push_i64_be(&mut body, 100);
    match Command::from_data(43, &body).unwrap().execute(&mut db) {
        Effect::Respond(response) => assert_eq!(
            response,
            "{\"default\":{\"totalRequests\":1,\"totalAmount\":0.25},\"fallback\":{\"totalRequests\":0,\"totalAmount\":0.00}}"
        ),
        _ => panic!("a Get must respond"),
    }
}
