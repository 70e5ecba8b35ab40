use vstd::prelude::*;

verus! {

/// The strategy of a circuit breaker; each strategy goes with one kind of rule.
#[derive(Debug, Copy, Clone, PartialEq, Eq, Structural, Hash)]
pub enum BreakerStrategy {
    /// Opens on the ratio of slow requests in the window.
    SlowRequestRatio,
    /// Opens on the ratio of failed requests in the window.
    ErrorRatio,
    /// Opens on the number of failed requests in the window.
    ErrorCount,
    /// A strategy of the host's own, tagged by a code.
    Custom(u8),
}

impl Default for BreakerStrategy {
    fn default() -> (r: BreakerStrategy)
        ensures
            r == BreakerStrategy::SlowRequestRatio,
    {
        BreakerStrategy::SlowRequestRatio
    }
}

/// The states of the circuit breaker state machine.
#[derive(Debug, Copy, Clone, PartialEq, Eq, Structural)]
pub enum State {
    Closed,
    HalfOpen,
    Open,
}

impl Default for State {
    fn default() -> (r: State)
        ensures
            r == State::Closed,
    {
        State::Closed
    }
}

/// The edges of the state graph: closed to open, open to half-open, and
/// half-open back to either open or closed.
pub open spec fn is_edge(from: State, to: State) -> bool {
    match (from, to) {
        (State::Closed, State::Open) => true,
        (State::Open, State::HalfOpen) => true,
        (State::HalfOpen, State::Open) => true,
        (State::HalfOpen, State::Closed) => true,
        _ => false,
    }
}

/// The state after one call of the guarded transition from `from` to `to`
/// on a breaker in state `s`: it moves only from `from`.
pub open spec fn attempt(s: State, from: State, to: State) -> State {
    if s == from { to } else { s }
}

} // verus!
