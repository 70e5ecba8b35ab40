//! A circuit breaker: a three-state machine (closed, open, half-open) that
//! blocks calls to a failing resource, trip strategies that decide when to
//! open it, and a sliding-window counter of recent outcomes that feeds them.
//!
//! Every operation here is sequential and takes `&mut self` where it changes
//! state: a host that shares a breaker between threads keeps it behind one
//! lock, which makes each check-then-set transition atomic. Time is handed in
//! as milliseconds since the epoch (`now_ms`).

pub mod state;
pub mod rule;
pub mod stat;
pub mod listener;
pub mod breaker;
pub mod strategy;
pub mod laws;

pub use state::{BreakerStrategy, State};
pub use rule::{Rule, Snapshot};
pub use stat::{CounterLeapArray, MetricBucket, MetricSummary};
pub use listener::{ListenerRegistry, StateChangeListener, StateEvent};
pub use breaker::{BreakerBase, EntryContext};
pub use strategy::{check_trip, CircuitBreaker, CircuitBreakerTrait};
