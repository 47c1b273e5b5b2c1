use payment_relay::model::{Amount, Payment, PaymentProcessorName};
use payment_relay::store::{
    assemble_record, build_metrics_query, parse_bound, payment_record, process_metrics_results,
    MetricsRow, Timestamp,
};

fn row(processor: &str, count: i64, mantissa: i128, scale: u32) -> MetricsRow {
    MetricsRow { processor: processor.to_string(), count, total_amount: Amount { mantissa, scale } }
}

const BASE: &str =
    "SELECT payment_processor, COUNT(1) as count, SUM(amount) as total_amount FROM payments";

#[test]
fn summary_without_window_covers_all_payments_by_processor() {
    let (query, params) = build_metrics_query(&None, &None);
    assert_eq!(query, format!("{} GROUP BY payment_processor", BASE));
    assert!(params.is_empty());
    let summary = process_metrics_results(&vec![row("default", 3, 3000, 2), row("fallback", 2, 1550, 2)]);
    assert_eq!(summary.default.total_requests, 3);
    assert_eq!(summary.default.total_amount, Amount { mantissa: 3000, scale: 2 });
    assert_eq!(summary.fallback.total_requests, 2);
    assert_eq!(summary.fallback.total_amount, Amount { mantissa: 1550, scale: 2 });
}

#[test]
fn missing_processor_has_zero_totals() {
    let summary = process_metrics_results(&vec![row("fallback", 1, 5, 0)]);
    assert_eq!(summary.default.total_requests, 0);
    assert_eq!(summary.default.total_amount, Amount::zero());
    assert_eq!(summary.fallback.total_requests, 1);
    let empty = process_metrics_results(&vec![]);
    assert_eq!(empty.fallback.total_requests, 0);
}

#[test]
fn window_with_both_bounds() {
    let (query, params) = build_metrics_query(
        &Some("2025-01-01T00:00:00Z".to_string()),
        &Some("2025-01-01T00:00:10.5+00:00".to_string()),
    );
    assert_eq!(
        query,
        format!(
            "{} WHERE requested_at >= $1 AND requested_at <= $2 GROUP BY payment_processor",
            BASE
        )
    );
    assert_eq!(
        params,
        vec![
            Timestamp { secs: 1735689600, nanos: 0 },
            Timestamp { secs: 1735689610, nanos: 500_000_000 }
        ]
    );
}

#[test]
fn window_with_upper_bound_only_and_naive_form() {
    let (query, params) = build_metrics_query(&None, &Some("2025-01-01T00:01:00".to_string()));
    assert_eq!(query, format!("{} WHERE requested_at <= $1 GROUP BY payment_processor", BASE));
    assert_eq!(params, vec![Timestamp { secs: 1735689660, nanos: 0 }]);
}

#[test]
fn unreadable_bound_is_ignored() {
    let (query, params) = build_metrics_query(&Some("yesterday".to_string()), &None);
    assert_eq!(query, format!("{} GROUP BY payment_processor", BASE));
    assert!(params.is_empty());
    assert_eq!(parse_bound(&"yesterday".to_string()), None);
    assert_eq!(
        parse_bound(&"2025-01-01T01:00:00+01:00".to_string()),
        Some(Timestamp { secs: 1735689600, nanos: 0 })
    );
}

#[test]
fn record_keeps_valid_identifier_and_stamp() {
    let p = Payment {
        correlation_id: "4a7901b8-7d26-4d2d-aa19-4dc1c7cf60b3".to_string(),
        amount: Amount { mantissa: 1990, scale: 2 },
        requested_at: "2025-07-15T12:34:56.000Z".to_string(),
    };
    let r = assemble_record(&p, &"fallback".to_string(), 7, Timestamp { secs: 1, nanos: 2 });
    assert_eq!(r.correlation_id, 0x4a7901b87d264d2daa194dc1c7cf60b3);
    assert_eq!(r.processor, PaymentProcessorName::Fallback);
    assert_eq!(r.amount, Amount { mantissa: 1990, scale: 2 });
    assert_eq!(r.requested_at, Timestamp { secs: 1752582896, nanos: 0 });
}

#[test]
fn record_replaces_invalid_identifier_and_stamp() {
    let p = Payment {
        correlation_id: "c1".to_string(),
        amount: Amount { mantissa: 1000, scale: 2 },
        requested_at: "not a time".to_string(),
    };
    let r = assemble_record(&p, &"other".to_string(), 7, Timestamp { secs: 1, nanos: 2 });
    assert_eq!(r.correlation_id, 7);
    assert_eq!(r.processor, PaymentProcessorName::Default);
    assert_eq!(r.requested_at, Timestamp { secs: 1, nanos: 2 });
    let fresh = payment_record(&p, &"default".to_string());
    assert_eq!(fresh.processor, PaymentProcessorName::Default);
    assert_eq!(fresh.amount, p.amount);
}

#[test]
fn summary_partition_ignores_row_order() {
    let summary = process_metrics_results(&vec![row("fallback", 4, 125, 1), row("default", 1, 99, 0)]);
    assert_eq!(summary.default.total_requests, 1);
    assert_eq!(summary.default.total_amount, Amount { mantissa: 99, scale: 0 });
    assert_eq!(summary.fallback.total_requests, 4);
    assert_eq!(summary.fallback.total_amount, Amount { mantissa: 125, scale: 1 });
}
