use moonshine_processor::db::{Payment, PaymentDb};
use moonshine_processor::{HealthCheck, HealthCheckResult, PaymentType};

fn record(amount_cents: i64, requested_at: i64, payment_type: PaymentType) -> Payment {
    Payment { amount_cents, requested_at, payment_type }
}

#[test]
fn query_bounds_are_inclusive_both_ends() {
    let mut db = PaymentDb::new();
    db.insert(record(100, 999, PaymentType::Default)); // just below
    db.insert(record(100, 1000, PaymentType::Default)); // on the start bound
    db.insert(record(100, 1500, PaymentType::Default)); // inside
    db.insert(record(100, 2000, PaymentType::Default)); // on the end bound
    db.insert(record(100, 2001, PaymentType::Default)); // just above
    let summary = db.query_range(1000, 2000);
    assert_eq!(summary.default_requests, 3);
    assert_eq!(summary.default_amount_cents, 300);
    assert_eq!(summary.fallback_requests, 0);
    assert_eq!(summary.fallback_amount_cents, 0);
}

#[test]
fn query_partitions_by_provider() {
    let mut db = PaymentDb::new();
    db.insert(record(1990, 10, PaymentType::Default));
    db.insert(record(500, 20, PaymentType::Fallback));
    db.insert(record(10, 30, PaymentType::Fallback));
    let summary = db.query_range(0, 100);
    assert_eq!(summary.default_requests, 1);
    assert_eq!(summary.default_amount_cents, 1990);
    assert_eq!(summary.fallback_requests, 2);
    assert_eq!(summary.fallback_amount_cents, 510);
}

#[test]
fn amounts_are_summed_by_absolute_value() {
    let mut db = PaymentDb::new();
    db.insert(record(-250, 10, PaymentType::Default));
    db.insert(record(100, 20, PaymentType::Default));
    db.insert(record(i64::MIN, 30, PaymentType::Fallback));
    let summary = db.query_range(0, 100);
    assert_eq!(summary.default_amount_cents, 350);
    assert_eq!(summary.fallback_amount_cents, 1u128 << 63);
}

#[test]
fn empty_ledger_renders_zero_summary() {
    let db = PaymentDb::new();
    assert_eq!(
        db.get_payments_by_date_range(i64::MIN, i64::MAX),
        "{\"default\":{\"totalRequests\":0,\"totalAmount\":0.00},\"fallback\":{\"totalRequests\":0,\"totalAmount\":0.00}}"
    );
}

#[test]
fn summary_json_has_exactly_two_decimal_digits() {
    let mut db = PaymentDb::new();
    db.insert(record(1990, 10, PaymentType::Default)); // 19.90
    db.insert(record(100050, 20, PaymentType::Fallback)); // 1000.50
    db.insert(record(5, 30, PaymentType::Fallback)); // 0.05
    assert_eq!(
        db.get_payments_by_date_range(0, 100),
        "{\"default\":{\"totalRequests\":1,\"totalAmount\":19.90},\"fallback\":{\"totalRequests\":2,\"totalAmount\":1000.55}}"
    );
}

#[test]
fn clear_empties_every_query() {
    let mut db = PaymentDb::new();
    db.insert(record(100, 10, PaymentType::Default));
    db.insert(record(200, 20, PaymentType::Fallback));
    db.clear();
    for (start, end) in [(i64::MIN, i64::MAX), (0, 100), (10, 10), (100, 0)] {
        let summary = db.query_range(start, end);
        assert_eq!(summary.default_requests, 0);
        assert_eq!(summary.default_amount_cents, 0);
        assert_eq!(summary.fallback_requests, 0);
        assert_eq!(summary.fallback_amount_cents, 0);
    }
    assert_eq!(
        db.get_payments_by_date_range(i64::MIN, i64::MAX),
        "{\"default\":{\"totalRequests\":0,\"totalAmount\":0.00},\"fallback\":{\"totalRequests\":0,\"totalAmount\":0.00}}"
    );
}

#[test]
fn inverted_bounds_match_nothing() {
    let mut db = PaymentDb::new();
    db.insert(record(100, 50, PaymentType::Default));
    let summary = db.query_range(60, 40);
    assert_eq!(summary.default_requests, 0);
}

#[test]
fn health_snapshot_round_trip() {
    let mut db = PaymentDb::new();
    let initial = db.get_health_check();
    assert!(!initial.default_health_check.failing);
    assert_eq!(initial.default_health_check.min_response_time, 0);
    assert!(!initial.fallback_health_check.failing);
    let next = HealthCheckResult {
        default_health_check: HealthCheck { failing: true, min_response_time: 7 },
        fallback_health_check: HealthCheck { failing: false, min_response_time: 3 },
    };
    db.set_health_check(next);
    let read_back = db.get_health_check();
    assert!(read_back.default_health_check.failing);
    assert_eq!(read_back.default_health_check.min_response_time, 7);
    assert_eq!(read_back.fallback_health_check.min_response_time, 3);
}
