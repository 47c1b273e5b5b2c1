use payment_relay::dispatch::{DispatchStep, ProcessPayment};
use payment_relay::model::{Amount, Payment};
use payment_relay::queue::{
    Consumer, ConsumerAction, ConsumerEvent, ConsumerState, Producer, RECONNECT_BACKOFF_MS,
};
use payment_relay::settings::Settings;
use payment_relay::wire::{encode_payment, u8_text, QueueEnvelope};

fn settings() -> Settings {
    Settings::new(
        "0.0.0.0".to_string(),
        8080,
        "redis://localhost".to_string(),
        "http://processor".to_string(),
        "payments".to_string(),
        "db".to_string(),
        5432,
        "payments".to_string(),
        "user".to_string(),
        "secret".to_string(),
    )
}

fn envelope(message: &str, retry_count: u8) -> QueueEnvelope {
    QueueEnvelope { message: message.to_string(), retry_count }
}

fn fail_once(c: &Consumer, e: QueueEnvelope) -> (String, String) {
    let (s, a) = c.step(ConsumerState::Waiting, ConsumerEvent::Received(e));
    assert!(matches!(a, ConsumerAction::Dispatch(_)));
    let (s, a) = c.step(s, ConsumerEvent::Dispatched(false));
    assert!(matches!(s, ConsumerState::Waiting));
    match a {
        ConsumerAction::Push(p) => (p.queue, p.payload),
        _ => panic!("expected a push"),
    }
}

#[test]
fn dlq_name_is_derived_from_topic() {
    assert_eq!(settings().dlq_name(), "payments_dlq");
    assert_eq!(Consumer::new(&settings()).dlq_name, "payments_dlq");
}

#[test]
fn u8_text_writes_decimal_digits() {
    assert_eq!(u8_text(0), "0");
    assert_eq!(u8_text(7), "7");
    assert_eq!(u8_text(10), "10");
    assert_eq!(u8_text(205), "205");
    assert_eq!(u8_text(255), "255");
}

#[test]
fn envelope_encoding_escapes_message() {
    assert_eq!(envelope("a\"b", 2).encode(), "{\"message\":\"a\\\"b\",\"retry_count\":2}");
}

#[test]
fn producer_enqueues_with_zero_count() {
    let p = Producer::new(&settings());
    let push = p.envelope_push("m".to_string());
    assert_eq!(push.queue, "payments");
    assert_eq!(push.payload, "{\"message\":\"m\",\"retry_count\":0}");
}

#[test]
fn connection_failure_backs_off() {
    let c = Consumer::new(&settings());
    let (s, a) = c.step(ConsumerState::Waiting, ConsumerEvent::ConnectionFailed);
    assert!(matches!(s, ConsumerState::Waiting));
    assert!(matches!(a, ConsumerAction::Backoff(ms) if ms == RECONNECT_BACKOFF_MS));
    assert_eq!(RECONNECT_BACKOFF_MS, 1000);
}

#[test]
fn undecodable_message_is_dropped() {
    let c = Consumer::new(&settings());
    let (s, a) = c.step(ConsumerState::Waiting, ConsumerEvent::Undecodable);
    assert!(matches!(s, ConsumerState::Waiting));
    assert!(matches!(a, ConsumerAction::Pop));
}

#[test]
fn successful_delivery_pushes_nothing() {
    let c = Consumer::new(&settings());
    let (s, _) = c.step(ConsumerState::Waiting, ConsumerEvent::Received(envelope("m", 1)));
    let (s, a) = c.step(s, ConsumerEvent::Dispatched(true));
    assert!(matches!(s, ConsumerState::Waiting));
    assert!(matches!(a, ConsumerAction::Pop));
}

#[test]
fn failed_delivery_requeues_with_next_count() {
    let c = Consumer::new(&settings());
    let (queue, payload) = fail_once(&c, envelope("m", 0));
    assert_eq!(queue, "payments");
    assert_eq!(payload, "{\"message\":\"m\",\"retry_count\":1}");
}

#[test]
fn count_two_failure_goes_to_dead_letter() {
    let c = Consumer::new(&settings());
    let (queue, payload) = fail_once(&c, envelope("m", 2));
    assert_eq!(queue, "payments_dlq");
    assert_eq!(payload, "{\"message\":\"m\",\"retry_count\":3}");
}

#[test]
fn dead_letter_count_is_exactly_ceiling() {
    let c = Consumer::new(&settings());
    for start in 0u8..3 {
        let mut count = start;
        loop {
            let (queue, payload) = fail_once(&c, envelope("m", count));
            count += 1;
            if queue == "payments_dlq" {
                assert_eq!(count, 3);
                assert_eq!(payload, "{\"message\":\"m\",\"retry_count\":3}");
                break;
            }
            assert!(count < 3);
        }
    }
}

#[test]
fn event_while_delivering_waits_for_outcome() {
    let c = Consumer::new(&settings());
    let (s, _) = c.step(ConsumerState::Waiting, ConsumerEvent::Received(envelope("m", 0)));
    let (s, a) = c.step(s, ConsumerEvent::Empty);
    assert!(matches!(s, ConsumerState::Delivering(_)));
    assert!(matches!(a, ConsumerAction::Await));
}

#[test]
fn always_failing_payment_reaches_dead_letter_after_three_cycles() {
    let payment = Payment {
        correlation_id: "c1".to_string(),
        amount: Amount { mantissa: 1000, scale: 2 },
        requested_at: "2025-01-01T00:00:00+00:00".to_string(),
    };
    let json = encode_payment(&payment);
    assert_eq!(
        json,
        "{\"correlationId\":\"c1\",\"amount\":\"10.00\",\"requestedAt\":\"2025-01-01T00:00:00+00:00\"}"
    );
    let step = ProcessPayment::after_submission(&payment, Err("boom".to_string()), true);
    let message = match step {
        DispatchStep::Publish(m) => m,
        _ => panic!("expected a publish"),
    };
    assert_eq!(message, json);
    let push = Producer::new(&settings()).envelope_push(message.clone());
    assert_eq!(push.queue, "payments");
    assert!(push.payload.ends_with(",\"retry_count\":0}"));

    let c = Consumer::new(&settings());
    let mut current = envelope(&message, 0);
    let mut cycles = 0;
    loop {
        let (queue, payload) = fail_once(&c, QueueEnvelope {
            message: current.message.clone(),
            retry_count: current.retry_count,
        });
        cycles += 1;
        let next = QueueEnvelope { message: message.clone(), retry_count: current.retry_count + 1 };
        assert_eq!(payload, next.encode());
        if queue == "payments_dlq" {
            break;
        }
        assert_eq!(queue, "payments");
        current = next;
    }
    assert_eq!(cycles, 3);
    assert_eq!(current.retry_count + 1, 3);
}

#[test]
fn envelope_encoding_escapes_control_characters() {
    assert_eq!(
        envelope("x\n\u{1}\\\t\u{1f}é", 0).encode(),
        "{\"message\":\"x\\n\\u0001\\\\\\t\\u001fé\",\"retry_count\":0}"
    );
}

#[test]
fn payment_amount_text_follows_scale_and_sign() {
    let text = |mantissa: i128, scale: u32| {
        encode_payment(&Payment {
            correlation_id: "c".to_string(),
            amount: Amount { mantissa, scale },
            requested_at: String::new(),
        })
    };
    let expect = |amount: &str| format!("{{\"correlationId\":\"c\",\"amount\":\"{}\",\"requestedAt\":\"\"}}", amount);
    assert_eq!(text(5, 3), expect("0.005"));
    assert_eq!(text(0, 2), expect("0.00"));
    assert_eq!(text(-150, 1), expect("-15.0"));
    assert_eq!(text(0, 0), expect("0"));
    assert_eq!(text(12345, 0), expect("12345"));
    assert_eq!(text(-7, 0), expect("-7"));
}
