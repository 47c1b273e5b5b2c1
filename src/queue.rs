use vstd::prelude::*;
use crate::settings::{dlq_name_of, Settings};
use crate::wire::{envelope_json, QueueEnvelope};

verus! {

/// Number of failed re-deliveries after which an envelope leaves the primary
/// queue for the dead-letter lane.
pub const RETRY_CEILING: u8 = 3;

/// Pause after a lost connection to the queue store, in milliseconds.
pub const RECONNECT_BACKOFF_MS: u64 = 1000;

/// An append to the tail of a named list of the queue store.
pub struct Push {
    pub queue: String,
    pub payload: String,
}

/// The counter of an envelope after one more failed delivery; it saturates at
/// the largest byte value, which no envelope of the primary queue reaches.
pub open spec fn bumped(retry_count: u8) -> u8 {
    if retry_count < 255 {
        (retry_count + 1) as u8
    } else {
        255
    }
}

/// Whether an envelope with this counter still belongs to the primary queue.
pub open spec fn in_primary(retry_count: u8) -> bool {
    retry_count < RETRY_CEILING
}

/// Where a failed envelope goes next, and with which counter.
pub enum Redelivery {
    /// Delivered: nothing is pushed.
    Done,
    /// Pushed back to the tail of the primary queue.
    Requeue(u8),
    /// Demoted to the dead-letter lane.
    DeadLetter(u8),
}

/// Fate of an envelope with counter `retry_count` after an attempt.
pub open spec fn redelivery(retry_count: u8, delivered: bool) -> Redelivery {
    if delivered {
        Redelivery::Done
    } else if in_primary(bumped(retry_count)) {
        Redelivery::Requeue(bumped(retry_count))
    } else {
        Redelivery::DeadLetter(bumped(retry_count))
    }
}

/// An envelope of the primary queue that fails once more either returns to the
/// primary queue with its counter raised by exactly one, or, once that counter
/// reaches the ceiling, enters the dead-letter lane with a counter of exactly
/// the ceiling: never above it, and never reset.
pub proof fn lemma_dead_letter_count(retry_count: u8)
    requires
        in_primary(retry_count),
    ensures
        match redelivery(retry_count, false) {
            Redelivery::Requeue(n) => n == retry_count + 1 && in_primary(n),
            Redelivery::DeadLetter(n) => n == retry_count + 1 && n == RETRY_CEILING,
            Redelivery::Done => false,
        },
{
}

/// Producer side of the retry queue.
pub struct Producer {
    pub queue_name: String,
}

impl Producer {
    pub fn new(settings: &Settings) -> (r: Producer)
        ensures
            r.queue_name == settings.payment_topic,
    {
        Producer { queue_name: settings.payment_topic.clone() }
    }

    /// The push that enqueues `message` as a fresh envelope (counter 0) at the
    /// tail of the queue.
    pub fn envelope_push(&self, message: String) -> (r: Push)
        ensures
            r.queue == self.queue_name,
            r.payload@ == envelope_json(message@, 0),
    {
        let e = QueueEnvelope { message, retry_count: 0 };
        Push { queue: self.queue_name.clone(), payload: e.encode() }
    }
}

/// Where the consumer loop stands.
pub enum ConsumerState {
    /// Waiting for the head of the queue.
    Waiting,
    /// An envelope was handed to the dispatcher; its outcome is awaited.
    Delivering(QueueEnvelope),
}

/// What the consumer loop observed.
pub enum ConsumerEvent {
    /// The connection to the queue store failed, or the pop did.
    ConnectionFailed,
    /// The blocking pop came back without an item.
    Empty,
    /// The popped text is not an envelope.
    Undecodable,
    /// An envelope was popped from the head of the queue.
    Received(QueueEnvelope),
    /// The dispatcher finished the attempt, successfully or not.
    Dispatched(bool),
}

/// What the consumer loop does next.
pub enum ConsumerAction {
    /// Block for the head of the queue.
    Pop,
    /// Sleep this many milliseconds, then pop again.
    Backoff(u64),
    /// Dispatch this serialized payment without re-enqueueing on failure.
    Dispatch(String),
    /// Perform this push, then pop again.
    Push(Push),
    /// Keep waiting for the outcome of the dispatch in flight.
    Await,
}

/// Consumer of the retry queue: decides, for each observation of its loop,
/// the next step. The loop itself (blocking pop, dispatch, push) is run by
/// the caller.
pub struct Consumer {
    pub queue_name: String,
    pub dlq_name: String,
}

impl Consumer {
    pub open spec fn wf(&self) -> bool {
        self.dlq_name@ == dlq_name_of(self.queue_name@)
    }

    pub fn new(settings: &Settings) -> (r: Consumer)
        ensures
            r.queue_name == settings.payment_topic,
            r.wf(),
    {
        Consumer { queue_name: settings.payment_topic.clone(), dlq_name: settings.dlq_name() }
    }

    /// One decision of the consumer loop.
    pub fn step(&self, state: ConsumerState, event: ConsumerEvent) -> (r: (
        ConsumerState,
        ConsumerAction,
    ))
        ensures
            match (state, event) {
                (ConsumerState::Waiting, ConsumerEvent::ConnectionFailed) => r.0 is Waiting
                    && r.1 == ConsumerAction::Backoff(RECONNECT_BACKOFF_MS),
                (ConsumerState::Waiting, ConsumerEvent::Received(e)) => r.0 == ConsumerState::Delivering(
                    e,
                ) && r.1 == ConsumerAction::Dispatch(e.message),
                (ConsumerState::Waiting, _) => r.0 is Waiting && r.1 is Pop,
                (ConsumerState::Delivering(e), ConsumerEvent::Dispatched(ok)) => r.0 is Waiting && match redelivery(e.retry_count, ok) {
                    Redelivery::Done => r.1 is Pop,
                    Redelivery::Requeue(n) => r.1 matches ConsumerAction::Push(p) && p.queue
                        == self.queue_name && p.payload@ == envelope_json(e.message@, n as nat),
                    Redelivery::DeadLetter(n) => r.1 matches ConsumerAction::Push(p) && p.queue
                        == self.dlq_name && p.payload@ == envelope_json(e.message@, n as nat),
                },
                (ConsumerState::Delivering(e), _) => r.0 == ConsumerState::Delivering(e) && r.1 is Await,
            },
    {
        match state {
            ConsumerState::Waiting => match event {
                ConsumerEvent::ConnectionFailed => (
                    ConsumerState::Waiting,
                    ConsumerAction::Backoff(RECONNECT_BACKOFF_MS),
                ),
                ConsumerEvent::Received(e) => {
                    let m = e.message.clone();
                    (ConsumerState::Delivering(e), ConsumerAction::Dispatch(m))
                },
                _ => (ConsumerState::Waiting, ConsumerAction::Pop),
            },
            ConsumerState::Delivering(e) => match event {
                ConsumerEvent::Dispatched(ok) => {
                    if ok {
                        (ConsumerState::Waiting, ConsumerAction::Pop)
                    } else {
                        let n = if e.retry_count < 255 {
                            e.retry_count + 1
                        } else {
                            255
                        };
                        let queue = if n < RETRY_CEILING {
                            self.queue_name.clone()
                        } else {
                            self.dlq_name.clone()
                        };
                        let next = QueueEnvelope { message: e.message, retry_count: n };
                        let payload = next.encode();
                        (ConsumerState::Waiting, ConsumerAction::Push(Push { queue, payload }))
                    }
                },
                _ => (ConsumerState::Delivering(e), ConsumerAction::Await),
            },
        }
    }
}

} // verus!
