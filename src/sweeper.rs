use vstd::prelude::*;
use crate::settings::{dlq_name_of, Settings};
use crate::wire::QueueEnvelope;

verus! {

/// Pause between two sweeps of the dead-letter lane, in milliseconds.
pub const SWEEP_INTERVAL_MS: u64 = 3000;

/// Where the sweeper stands.
pub enum SweepState {
    /// Between two sweeps.
    Sleeping,
    /// Draining the lane: the next item is to be popped.
    Draining,
    /// An item was popped and dispatched: its stored text and its envelope.
    Delivering(String, QueueEnvelope),
}

/// What the sweeper observed.
pub enum SweepEvent {
    /// The pause between two sweeps is over.
    Woke,
    /// The non-blocking pop found the lane empty.
    Empty,
    /// The pop failed.
    PopFailed,
    /// The popped text is not an envelope.
    Undecodable,
    /// An item was popped: its stored text and its envelope.
    Received(String, QueueEnvelope),
    /// The dispatcher finished the attempt, successfully or not.
    Dispatched(bool),
}

/// What the sweeper does next.
pub enum SweepAction {
    /// Sleep for the sweep interval, then report `Woke`.
    Sleep(u64),
    /// Pop at most one item from the head of the lane, without blocking.
    PopOne,
    /// Dispatch this serialized payment without re-enqueueing on failure.
    Dispatch(String),
    /// Push this text back to the tail of this lane, then sleep this many
    /// milliseconds (the sweep interval) and report `Woke`.
    PushBack(String, String, u64),
    /// Keep waiting for the outcome of the dispatch in flight.
    Await,
}

/// Phases of the sweeper, without their data.
pub enum SweepPhase {
    Sleeping,
    Draining,
    Delivering,
}

/// Kinds of observations, without their data.
pub enum SweepEventKind {
    Woke,
    Ended,
    Received,
    Dispatched(bool),
}

/// Kinds of actions, without their data.
pub enum SweepActionKind {
    Sleep,
    PopOne,
    Dispatch,
    PushBack,
    Await,
}

pub open spec fn phase_of(s: SweepState) -> SweepPhase {
    match s {
        SweepState::Sleeping => SweepPhase::Sleeping,
        SweepState::Draining => SweepPhase::Draining,
        SweepState::Delivering(_, _) => SweepPhase::Delivering,
    }
}

pub open spec fn event_kind(e: SweepEvent) -> SweepEventKind {
    match e {
        SweepEvent::Woke => SweepEventKind::Woke,
        SweepEvent::Received(_, _) => SweepEventKind::Received,
        SweepEvent::Dispatched(ok) => SweepEventKind::Dispatched(ok),
        _ => SweepEventKind::Ended,
    }
}

pub open spec fn action_kind(a: SweepAction) -> SweepActionKind {
    match a {
        SweepAction::Sleep(_) => SweepActionKind::Sleep,
        SweepAction::PopOne => SweepActionKind::PopOne,
        SweepAction::Dispatch(_) => SweepActionKind::Dispatch,
        SweepAction::PushBack(_, _, _) => SweepActionKind::PushBack,
        SweepAction::Await => SweepActionKind::Await,
    }
}

/// The sweeper's transitions over phases: a sweep starts on waking, drains
/// while dispatches succeed, and ends (back to sleep) on an empty lane, a pop
/// or decode failure, or the first failed dispatch, whose item is pushed back.
pub open spec fn sweep_next(p: SweepPhase, e: SweepEventKind) -> (SweepPhase, SweepActionKind) {
    match p {
        SweepPhase::Sleeping => match e {
            SweepEventKind::Woke => (SweepPhase::Draining, SweepActionKind::PopOne),
            _ => (SweepPhase::Sleeping, SweepActionKind::Sleep),
        },
        SweepPhase::Draining => match e {
            SweepEventKind::Received => (SweepPhase::Delivering, SweepActionKind::Dispatch),
            SweepEventKind::Ended => (SweepPhase::Sleeping, SweepActionKind::Sleep),
            _ => (SweepPhase::Draining, SweepActionKind::PopOne),
        },
        SweepPhase::Delivering => match e {
            SweepEventKind::Dispatched(true) => (SweepPhase::Draining, SweepActionKind::PopOne),
            SweepEventKind::Dispatched(false) => (SweepPhase::Sleeping, SweepActionKind::PushBack),
            _ => (SweepPhase::Delivering, SweepActionKind::Await),
        },
    }
}

/// Sweeper of the dead-letter lane: decides, for each observation of its
/// loop, the next step. The loop itself (sleep, pop, dispatch, push) is run by
/// the caller.
pub struct DLQConsumer {
    pub dlq_name: String,
}

impl DLQConsumer {
    pub fn new(settings: &Settings) -> (r: DLQConsumer)
        ensures
            r.dlq_name@ == dlq_name_of(settings.payment_topic@),
    {
        DLQConsumer { dlq_name: settings.dlq_name() }
    }

    /// One decision of the sweeper loop.
    pub fn step(&self, state: SweepState, event: SweepEvent) -> (r: (SweepState, SweepAction))
        ensures
            (phase_of(r.0), action_kind(r.1)) == sweep_next(phase_of(state), event_kind(event)),
            r.1 matches SweepAction::Sleep(ms) ==> ms == SWEEP_INTERVAL_MS,
            r.1 matches SweepAction::PushBack(_, _, ms) ==> ms == SWEEP_INTERVAL_MS,
            match (state, event) {
                (SweepState::Draining, SweepEvent::Received(raw, e)) => r.0
                    == SweepState::Delivering(raw, e) && r.1 == SweepAction::Dispatch(e.message),
                (SweepState::Delivering(raw, e), SweepEvent::Dispatched(ok)) => ok || r.1
                    == SweepAction::PushBack(self.dlq_name, raw, SWEEP_INTERVAL_MS),
                (SweepState::Delivering(raw, e), _) => r.0 == SweepState::Delivering(raw, e),
                _ => true,
            },
    {
        match state {
            SweepState::Sleeping => match event {
                SweepEvent::Woke => (SweepState::Draining, SweepAction::PopOne),
                _ => (SweepState::Sleeping, SweepAction::Sleep(SWEEP_INTERVAL_MS)),
            },
            SweepState::Draining => match event {
                SweepEvent::Received(raw, e) => {
                    let m = e.message.clone();
                    (SweepState::Delivering(raw, e), SweepAction::Dispatch(m))
                },
                SweepEvent::Woke => (SweepState::Draining, SweepAction::PopOne),
                SweepEvent::Dispatched(_) => (SweepState::Draining, SweepAction::PopOne),
                _ => (SweepState::Sleeping, SweepAction::Sleep(SWEEP_INTERVAL_MS)),
            },
            SweepState::Delivering(raw, e) => match event {
                SweepEvent::Dispatched(ok) => {
                    if ok {
                        (SweepState::Draining, SweepAction::PopOne)
                    } else {
                        (
                            SweepState::Sleeping,
                            SweepAction::PushBack(self.dlq_name.clone(), raw, SWEEP_INTERVAL_MS),
                        )
                    }
                },
                _ => (SweepState::Delivering(raw, e), SweepAction::Await),
            },
        }
    }
}

/// Actions of the sweeper, by kind, along a run of observations from phase `p`.
pub open spec fn sweep_run(p: SweepPhase, events: Seq<SweepEventKind>) -> Seq<SweepActionKind>
    decreases events.len(),
{
    if events.len() == 0 {
        seq![]
    } else {
        let (q, a) = sweep_next(p, events[0]);
        seq![a] + sweep_run(q, events.drop_first())
    }
}

proof fn lemma_asleep_run(events: Seq<SweepEventKind>)
    requires
        forall|i: int| 0 <= i < events.len() ==> events[i] != SweepEventKind::Woke,
    ensures
        sweep_run(SweepPhase::Sleeping, events).len() == events.len(),
        forall|i: int|
            0 <= i < events.len() ==> sweep_run(SweepPhase::Sleeping, events)[i]
                == SweepActionKind::Sleep,
    decreases events.len(),
{
    if events.len() > 0 {
        let rest = events.drop_first();
        assert forall|i: int| 0 <= i < rest.len() implies rest[i] != SweepEventKind::Woke by {
            assert(rest[i] == events[i + 1]);
        }
        lemma_asleep_run(rest);
        let run = sweep_run(SweepPhase::Sleeping, events);
        assert(run == seq![SweepActionKind::Sleep] + sweep_run(SweepPhase::Sleeping, rest));
        assert forall|i: int| 0 <= i < events.len() implies run[i] == SweepActionKind::Sleep by {
            if i > 0 {
                assert(run[i] == sweep_run(SweepPhase::Sleeping, rest)[i - 1]);
            }
        }
    }
}

/// Once a dispatch fails in a sweep, the failed item is pushed back and the
/// sweep ends; the sweeper then makes no further dispatch attempt until it
/// wakes for the next sweep: along any run of observations without a wake-up,
/// no action is a dispatch.
pub proof fn lemma_no_retry_within_sweep(events: Seq<SweepEventKind>)
    requires
        forall|i: int| 0 <= i < events.len() ==> events[i] != SweepEventKind::Woke,
    ensures
        sweep_next(SweepPhase::Delivering, SweepEventKind::Dispatched(false)) == (
            SweepPhase::Sleeping,
            SweepActionKind::PushBack,
        ),
        sweep_run(SweepPhase::Sleeping, events).len() == events.len(),
        forall|i: int|
            0 <= i < events.len() ==> sweep_run(SweepPhase::Sleeping, events)[i]
                != SweepActionKind::Dispatch,
{
    lemma_asleep_run(events);
}

} // verus!
