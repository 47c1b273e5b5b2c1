use vstd::prelude::*;
use vstd::string::StringExecFns;
use crate::model::{processor_from_label, processor_label, Payment, PaymentProcessorName};
use crate::queue::{in_primary, redelivery, Redelivery, RETRY_CEILING};
use crate::store::rfc3339_instant;
use crate::wire::{encode_payment, payment_json};

verus! {

/// Relies on `chrono::Utc::now` and `DateTime::to_rfc3339`: the current UTC
/// time as RFC 3339 text, which `DateTime::parse_from_rfc3339` reads back.
/// Nothing is known of which time it is.
#[verifier::external_body]
fn utc_now_rfc3339() -> (r: String)
    ensures
        rfc3339_instant(r@) is Some,
{
    chrono::Utc::now().to_rfc3339()
}

/// Whether an HTTP status is a success (2xx).
pub open spec fn status_success(status: u16) -> bool {
    200 <= status < 300
}

/// Identifier reported by a processor: its `x-payment-processor` header, or
/// `default` when the header is absent.
pub open spec fn reported_processor(header: Option<Seq<char>>) -> Seq<char> {
    match header {
        Some(h) => h,
        None => processor_label(PaymentProcessorName::Default),
    }
}

/// Reading of a processor's answer to a submission: on a 2xx status the
/// identifier of the processor that handled it, otherwise the answer's body as
/// the error.
pub fn submission_outcome(status: u16, processor_header: Option<String>, body: String) -> (r: Result<
    String,
    String,
>)
    ensures
        status_success(status) ==> (r matches Ok(id) && id@ == reported_processor(
            match processor_header {
                Some(h) => Some(h@),
                None => None,
            },
        )),
        !status_success(status) ==> r == Err::<String, String>(body),
{
    if 200 <= status && status < 300 {
        match processor_header {
            Some(h) => Ok(h),
            None => Ok(PaymentProcessorName::Default.to_string()),
        }
    } else {
        Err(body)
    }
}

/// Kind of the dispatcher's decision after one submission.
pub enum DispatchKind {
    Record,
    Publish,
    Fail,
}

/// A successful submission is recorded; a failed one is enqueued for retry
/// when the call may re-enqueue, and surfaced otherwise.
pub open spec fn dispatch_kind(submitted: bool, publish_on_failure: bool) -> DispatchKind {
    if submitted {
        DispatchKind::Record
    } else if publish_on_failure {
        DispatchKind::Publish
    } else {
        DispatchKind::Fail
    }
}

/// What the dispatcher does after a submission.
pub enum DispatchStep {
    /// Record the payment for this processor; the call succeeds.
    Record(PaymentProcessorName),
    /// Enqueue this serialized payment for retry; the call's result is the
    /// enqueue's.
    Publish(String),
    /// Fail with this message, without enqueueing anything.
    Fail(String),
}

pub open spec fn step_kind(s: DispatchStep) -> DispatchKind {
    match s {
        DispatchStep::Record(_) => DispatchKind::Record,
        DispatchStep::Publish(_) => DispatchKind::Publish,
        DispatchStep::Fail(_) => DispatchKind::Fail,
    }
}

/// The process-payment use case: stamps a payment, then decides from the
/// submission's outcome whether to record, enqueue or fail.
pub struct ProcessPayment {}

impl ProcessPayment {
    /// The payment stamped with the time `now`, the other fields unchanged;
    /// an earlier stamp is always overwritten.
    pub fn stamped(payment: Payment, now: String) -> (r: Payment)
        ensures
            r.correlation_id == payment.correlation_id,
            r.amount == payment.amount,
            r.requested_at == now,
    {
        Payment { correlation_id: payment.correlation_id, amount: payment.amount, requested_at: now }
    }

    /// The payment stamped with the current UTC time as RFC 3339 text, the
    /// other fields unchanged; an earlier stamp is always overwritten.
    pub fn stamp(payment: Payment) -> (r: Payment)
        ensures
            r.correlation_id == payment.correlation_id,
            r.amount == payment.amount,
            rfc3339_instant(r.requested_at@) is Some,
    {
        ProcessPayment::stamped(payment, utc_now_rfc3339())
    }

    /// Decision after submitting `payment`: `submitted` is the processor
    /// identifier, or the failure.
    pub fn after_submission(
        payment: &Payment,
        submitted: Result<String, String>,
        publish_on_failure: bool,
    ) -> (r: DispatchStep)
        requires
            payment.amount.wf(),
        ensures
            step_kind(r) == dispatch_kind(submitted is Ok, publish_on_failure),
            match submitted {
                Ok(id) => r == DispatchStep::Record(processor_from_label(id@)),
                Err(e) => if publish_on_failure {
                    r matches DispatchStep::Publish(m) && m@ == payment_json(*payment)
                } else {
                    r matches DispatchStep::Fail(m) && m@ == "Payment processing failed: "@ + e@
                },
            },
    {
        match submitted {
            Ok(id) => DispatchStep::Record(PaymentProcessorName::from_label(&id)),
            Err(e) => {
                if publish_on_failure {
                    DispatchStep::Publish(encode_payment(payment))
                } else {
                    let mut m = String::from_str("Payment processing failed: ");
                    m.append(e.as_str());
                    DispatchStep::Fail(m)
                }
            },
        }
    }
}

/// Number of times a payment is recorded along the retry queue, when its
/// envelope holds counter `retry_count` and its successive re-deliveries have
/// the outcomes `outcomes`.
pub open spec fn queued_records(retry_count: u8, outcomes: Seq<bool>) -> nat
    decreases outcomes.len(),
{
    if outcomes.len() == 0 {
        0
    } else {
        let here: nat = if dispatch_kind(outcomes[0], false) == DispatchKind::Record {
            1
        } else {
            0
        };
        match redelivery(retry_count, outcomes[0]) {
            Redelivery::Requeue(n) => here + queued_records(n, outcomes.drop_first()),
            _ => here,
        }
    }
}

/// Number of times a payment submitted by a client is recorded, when its
/// direct submission and then its re-deliveries have the outcomes `outcomes`.
pub open spec fn payment_records(outcomes: Seq<bool>) -> nat {
    if outcomes.len() == 0 {
        0
    } else {
        match dispatch_kind(outcomes[0], true) {
            DispatchKind::Record => 1,
            DispatchKind::Publish => queued_records(0, outcomes.drop_first()),
            DispatchKind::Fail => 0,
        }
    }
}

proof fn lemma_queued_records_once(retry_count: u8, outcomes: Seq<bool>, k: int)
    requires
        in_primary(retry_count),
        0 <= k < outcomes.len(),
        k < RETRY_CEILING - retry_count,
        outcomes[k],
        forall|j: int| 0 <= j < k ==> !outcomes[j],
    ensures
        queued_records(retry_count, outcomes) == 1,
    decreases k,
{
    if k > 0 {
        let rest = outcomes.drop_first();
        assert forall|j: int| 0 <= j < k - 1 implies !rest[j] by {
            assert(!outcomes[j + 1]);
        }
        assert(!outcomes[0]);
        lemma_queued_records_once((retry_count + 1) as u8, rest, k - 1);
    }
}

/// A payment whose submission succeeds within the retry ceiling (the direct
/// attempt or one of the re-deliveries before demotion) is recorded exactly
/// once.
pub proof fn lemma_recorded_exactly_once(outcomes: Seq<bool>, k: int)
    requires
        0 <= k < outcomes.len(),
        k <= RETRY_CEILING,
        outcomes[k],
        forall|j: int| 0 <= j < k ==> !outcomes[j],
    ensures
        payment_records(outcomes) == 1,
{
    if k > 0 {
        let rest = outcomes.drop_first();
        assert forall|j: int| 0 <= j < k - 1 implies !rest[j] by {
            assert(!outcomes[j + 1]);
        }
        assert(!outcomes[0]);
        lemma_queued_records_once(0, rest, k - 1);
    }
}

} // verus!
