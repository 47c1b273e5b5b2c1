//! Fault-tolerant payment dispatch: the decision logic of the dispatcher, the
//! bounded-retry queue with its dead-letter lane, the dead-letter sweeper and
//! the circuit-breaking proxy, each stated as a verified step function whose
//! effects (network, queue store, clock) are carried out by the caller.

pub mod model;
pub mod wire;
pub mod settings;
pub mod queue;
pub mod dispatch;
pub mod sweeper;
pub mod proxy;
pub mod store;
