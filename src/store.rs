use vstd::prelude::*;
use vstd::string::StringExecFns;
use crate::model::{
    processor_from_label, processor_label, Amount, Payment, PaymentMetric, PaymentProcessorName,
    PaymentSummary,
};

verus! {

/// A UTC instant: seconds since the Unix epoch and the nanoseconds within
/// that second.
#[derive(Clone, Copy, Debug, PartialEq, Eq, Structural)]
pub struct Timestamp {
    pub secs: i64,
    pub nanos: u32,
}

pub open spec fn timestamp_of(t: (i64, u32)) -> Timestamp {
    Timestamp { secs: t.0, nanos: t.1 }
}

/// The instant that RFC 3339 text denotes, if it is valid RFC 3339.
pub uninterp spec fn rfc3339_instant(s: Seq<char>) -> Option<(i64, u32)>;

/// The instant that text denotes when read, in UTC, with a strftime format.
pub uninterp spec fn formatted_instant(s: Seq<char>, format: Seq<char>) -> Option<(i64, u32)>;

/// The 128-bit value of a UUID in hyphenated, simple, braced or URN form.
pub uninterp spec fn uuid_value(s: Seq<char>) -> Option<u128>;

/// Relies on `chrono::DateTime::parse_from_rfc3339`, with the parsed instant
/// read as Unix seconds and sub-second nanoseconds.
#[verifier::external_body]
fn parse_rfc3339(s: &str) -> (r: Option<(i64, u32)>)
    ensures
        r == rfc3339_instant(s@),
{
    match chrono::DateTime::parse_from_rfc3339(s) {
        Ok(d) => Some((d.timestamp(), d.timestamp_subsec_nanos())),
        Err(_) => None,
    }
}

/// Relies on `chrono::NaiveDateTime::parse_from_str`, with the parsed
/// date-time taken as UTC and read as Unix seconds and nanoseconds.
#[verifier::external_body]
fn parse_formatted(s: &str, format: &str) -> (r: Option<(i64, u32)>)
    ensures
        r == formatted_instant(s@, format@),
{
    match chrono::NaiveDateTime::parse_from_str(s, format) {
        Ok(d) => Some((d.and_utc().timestamp(), d.and_utc().timestamp_subsec_nanos())),
        Err(_) => None,
    }
}

/// Relies on `uuid::Uuid::parse_str` and `Uuid::as_u128`.
#[verifier::external_body]
fn parse_uuid(s: &str) -> (r: Option<u128>)
    ensures
        r == uuid_value(s@),
{
    match uuid::Uuid::parse_str(s) {
        Ok(u) => Some(u.as_u128()),
        Err(_) => None,
    }
}

/// Relies on `uuid::Uuid::new_v4`: a random identifier, of which nothing is
/// known.
#[verifier::external_body]
fn fresh_uuid() -> (r: u128) {
    uuid::Uuid::new_v4().as_u128()
}

/// Relies on `chrono::Utc::now`: the current instant, of which nothing is
/// known.
#[verifier::external_body]
fn utc_now() -> (r: Timestamp) {
    let now = chrono::Utc::now();
    Timestamp { secs: now.timestamp(), nanos: now.timestamp_subsec_nanos() }
}

/// The strftime format accepted for a summary bound that is not RFC 3339.
pub const NAIVE_FORMAT: &'static str = "%Y-%m-%dT%H:%M:%S";

/// The instant a summary bound denotes: RFC 3339 text, or else a date-time
/// without offset in `NAIVE_FORMAT`, taken as UTC.
pub open spec fn bound_instant(s: Seq<char>) -> Option<Timestamp> {
    match rfc3339_instant(s) {
        Some(t) => Some(timestamp_of(t)),
        None => match formatted_instant(s, "%Y-%m-%dT%H:%M:%S"@) {
            Some(t) => Some(timestamp_of(t)),
            None => None,
        },
    }
}

/// Reads a summary bound; text that denotes no instant gives `None`.
pub fn parse_bound(s: &String) -> (r: Option<Timestamp>)
    ensures
        r == bound_instant(s@),
{
    proof {
        reveal_strlit("%Y-%m-%dT%H:%M:%S");
    }
    match parse_rfc3339(s.as_str()) {
        Some(t) => Some(Timestamp { secs: t.0, nanos: t.1 }),
        None => match parse_formatted(s.as_str(), NAIVE_FORMAT) {
            Some(t) => Some(Timestamp { secs: t.0, nanos: t.1 }),
            None => None,
        },
    }
}

pub open spec fn bound_of(b: Option<String>) -> Option<Timestamp> {
    match b {
        Some(s) => bound_instant(s@),
        None => None,
    }
}

pub open spec fn seq_of_bound(b: Option<Timestamp>) -> Seq<Timestamp> {
    match b {
        Some(t) => seq![t],
        None => seq![],
    }
}

/// Text of the metrics query: totals grouped by processor, restricted to
/// `requested_at >= $1` when there is a lower bound and to `requested_at <=`
/// the next parameter when there is an upper bound.
pub open spec fn metrics_query(has_from: bool, has_to: bool) -> Seq<char> {
    "SELECT payment_processor, COUNT(1) as count, SUM(amount) as total_amount FROM payments"@ + (
    if has_from || has_to {
        " WHERE"@ + (if has_from {
            " requested_at >= $1"@
        } else {
            seq![]
        }) + (if has_to {
            (if has_from {
                " AND requested_at <= $2"@
            } else {
                " requested_at <= $1"@
            })
        } else {
            seq![]
        })
    } else {
        seq![]
    }) + " GROUP BY payment_processor"@
}

/// The metrics query for an optional window and its parameters. A bound that
/// denotes no instant is left out, as if it were absent.
pub fn build_metrics_query(from: &Option<String>, to: &Option<String>) -> (r: (String, Vec<Timestamp>))
    ensures
        r.0@ == metrics_query(bound_of(*from) is Some, bound_of(*to) is Some),
        r.1@ == seq_of_bound(bound_of(*from)) + seq_of_bound(bound_of(*to)),
{
    let from_parsed = match from {
        Some(s) => parse_bound(s),
        None => None,
    };
    let to_parsed = match to {
        Some(s) => parse_bound(s),
        None => None,
    };
    let mut query = String::from_str(
        "SELECT payment_processor, COUNT(1) as count, SUM(amount) as total_amount FROM payments",
    );
    let mut params: Vec<Timestamp> = Vec::new();
    let has_from = from_parsed.is_some();
    if from_parsed.is_some() || to_parsed.is_some() {
        query.append(" WHERE");
        match from_parsed {
            Some(t) => {
                query.append(" requested_at >= $1");
                params.push(t);
            },
            None => {},
        }
        match to_parsed {
            Some(t) => {
                if has_from {
                    query.append(" AND requested_at <= $2");
                } else {
                    query.append(" requested_at <= $1");
                }
                params.push(t);
            },
            None => {},
        }
    }
    query.append(" GROUP BY payment_processor");
    proof {
        reveal_strlit(
            "SELECT payment_processor, COUNT(1) as count, SUM(amount) as total_amount FROM payments",
        );
        reveal_strlit(" WHERE");
        reveal_strlit(" requested_at >= $1");
        reveal_strlit(" AND requested_at <= $2");
        reveal_strlit(" requested_at <= $1");
        reveal_strlit(" GROUP BY payment_processor");
        assert(query@ =~= metrics_query(bound_of(*from) is Some, bound_of(*to) is Some));
        assert(params@ =~= seq_of_bound(bound_of(*from)) + seq_of_bound(bound_of(*to)));
    }
    (query, params)
}

/// One row of the metrics query: a processor identifier, its number of
/// payments and their total amount.
#[derive(Clone, Debug)]
pub struct MetricsRow {
    pub processor: String,
    pub count: i64,
    pub total_amount: Amount,
}

pub open spec fn empty_metric() -> PaymentMetric {
    PaymentMetric { total_requests: 0, total_amount: Amount { mantissa: 0, scale: 0 } }
}

pub open spec fn row_metric(row: MetricsRow) -> PaymentMetric {
    PaymentMetric { total_requests: row.count as u64, total_amount: row.total_amount }
}

/// The summary that rows give, read in order: a row of the `default`
/// processor sets the default totals, any other row the fallback totals; a
/// processor without a row has zero totals.
pub open spec fn summary_of(rows: Seq<MetricsRow>) -> PaymentSummary
    decreases rows.len(),
{
    if rows.len() == 0 {
        PaymentSummary { default: empty_metric(), fallback: empty_metric() }
    } else {
        let s = summary_of(rows.drop_last());
        let row = rows.last();
        if row.processor@ == processor_label(PaymentProcessorName::Default) {
            PaymentSummary { default: row_metric(row), fallback: s.fallback }
        } else {
            PaymentSummary { default: s.default, fallback: row_metric(row) }
        }
    }
}

/// Whether the rows are a grouping by processor: every row names the default
/// or the fallback processor, and no name occurs twice.
pub open spec fn grouped_by_processor(rows: Seq<MetricsRow>) -> bool {
    &&& forall|i: int|
        0 <= i < rows.len() ==> rows[i].processor@ == processor_label(PaymentProcessorName::Default)
            || rows[i].processor@ == processor_label(PaymentProcessorName::Fallback)
    &&& forall|i: int, j: int|
        0 <= i < j < rows.len() ==> rows[i].processor@ != rows[j].processor@
}

/// Totals of the processor `p` in a summary.
pub open spec fn metric_for(s: PaymentSummary, p: PaymentProcessorName) -> PaymentMetric {
    match p {
        PaymentProcessorName::Default => s.default,
        PaymentProcessorName::Fallback => s.fallback,
    }
}

/// On rows grouped by processor, the summary is partitioned by processor:
/// each processor's totals are those of its row, or zero when it has none.
pub proof fn lemma_summary_partitions(rows: Seq<MetricsRow>, p: PaymentProcessorName)
    requires
        grouped_by_processor(rows),
    ensures
        forall|i: int|
            0 <= i < rows.len() && rows[i].processor@ == processor_label(p) ==> metric_for(
                summary_of(rows),
                p,
            ) == row_metric(rows[i]),
        (forall|i: int| 0 <= i < rows.len() ==> rows[i].processor@ != processor_label(p))
            ==> metric_for(summary_of(rows), p) == empty_metric(),
    decreases rows.len(),
{
    assert(processor_label(PaymentProcessorName::Default).len() != processor_label(
        PaymentProcessorName::Fallback,
    ).len());
    if rows.len() > 0 {
        let prefix = rows.drop_last();
        assert forall|i: int| 0 <= i < prefix.len() implies prefix[i] == rows[i] by {}
        lemma_summary_partitions(prefix, p);
        let last = rows.len() - 1;
        assert(rows.last() == rows[last]);
        assert forall|i: int|
            0 <= i < rows.len() && rows[i].processor@ == processor_label(p) implies metric_for(
                summary_of(rows),
                p,
            ) == row_metric(rows[i]) by {
            if i < last {
                assert(prefix[i] == rows[i]);
                assert(rows[i].processor@ != rows[last].processor@);
            }
        }
        if forall|i: int| 0 <= i < rows.len() ==> rows[i].processor@ != processor_label(p) {
            assert forall|i: int| 0 <= i < prefix.len() implies prefix[i].processor@
                != processor_label(p) by {
                assert(prefix[i] == rows[i]);
            }
            assert(rows[last].processor@ != processor_label(p));
        }
    }
}

/// Totals per processor from the rows of the metrics query.
pub fn process_metrics_results(rows: &Vec<MetricsRow>) -> (r: PaymentSummary)
    requires
        forall|i: int| 0 <= i < rows.len() ==> rows[i].count >= 0,
    ensures
        r == summary_of(rows@),
{
    let default_label = PaymentProcessorName::Default.to_string();
    let mut summary = PaymentSummary {
        default: PaymentMetric { total_requests: 0, total_amount: Amount::zero() },
        fallback: PaymentMetric { total_requests: 0, total_amount: Amount::zero() },
    };
    let mut i: usize = 0;
    while i < rows.len()
        invariant
            0 <= i <= rows.len(),
            default_label@ == processor_label(PaymentProcessorName::Default),
            forall|j: int| 0 <= j < rows.len() ==> rows[j].count >= 0,
            summary == summary_of(rows@.subrange(0, i as int)),
        decreases rows.len() - i,
    {
        let row = &rows[i];
        let metric = PaymentMetric { total_requests: row.count as u64, total_amount: row.total_amount };
        if row.processor == default_label {
            summary = PaymentSummary { default: metric, fallback: summary.fallback };
        } else {
            summary = PaymentSummary { default: summary.default, fallback: metric };
        }
        proof {
            let prefix = rows@.subrange(0, i + 1);
            assert(prefix.drop_last() =~= rows@.subrange(0, i as int));
            assert(prefix.last() == rows@[i as int]);
        }
        i = i + 1;
    }
    assert(rows@.subrange(0, rows.len() as int) =~= rows@);
    summary
}

/// A payment as stored by the metrics store.
#[derive(Clone, Copy, Debug, PartialEq, Eq, Structural)]
pub struct PaymentRecord {
    pub correlation_id: u128,
    pub processor: PaymentProcessorName,
    pub amount: Amount,
    pub requested_at: Timestamp,
}

/// The record of `payment` handled by the processor named `processor_name`.
/// An identifier that is not a UUID is replaced by `fresh_id` (the payment is
/// kept as an anonymous record, never rejected); a stamp that is not RFC 3339
/// is replaced by `now`; an unknown processor name counts as the default.
pub open spec fn record_of(
    payment: Payment,
    processor_name: Seq<char>,
    fresh_id: u128,
    now: Timestamp,
) -> PaymentRecord {
    PaymentRecord {
        correlation_id: match uuid_value(payment.correlation_id@) {
            Some(u) => u,
            None => fresh_id,
        },
        processor: processor_from_label(processor_name),
        amount: payment.amount,
        requested_at: match rfc3339_instant(payment.requested_at@) {
            Some(t) => timestamp_of(t),
            None => now,
        },
    }
}

/// The record of a payment, given the identifier and the instant to use when
/// the payment's own are unreadable.
pub fn assemble_record(
    payment: &Payment,
    processor_name: &String,
    fresh_id: u128,
    now: Timestamp,
) -> (r: PaymentRecord)
    ensures
        r == record_of(*payment, processor_name@, fresh_id, now),
{
    let correlation_id = match parse_uuid(payment.correlation_id.as_str()) {
        Some(u) => u,
        None => fresh_id,
    };
    let requested_at = match parse_rfc3339(payment.requested_at.as_str()) {
        Some(t) => Timestamp { secs: t.0, nanos: t.1 },
        None => now,
    };
    PaymentRecord {
        correlation_id,
        processor: PaymentProcessorName::from_label(processor_name),
        amount: payment.amount,
        requested_at,
    }
}

/// The record to store for a payment handled by `processor_name`, with a
/// random identifier and the current instant as replacements.
pub fn payment_record(payment: &Payment, processor_name: &String) -> (r: PaymentRecord)
    ensures
        exists|fresh_id: u128, now: Timestamp| r == record_of(*payment, processor_name@, fresh_id, now),
{
    let fresh_id = fresh_uuid();
    let now = utc_now();
    assemble_record(payment, processor_name, fresh_id, now)
}

} // verus!
