use std::sync::Arc;
use vstd::prelude::*;
use crate::rule::{Rule, Snapshot};
use crate::state::State;

verus! {

/// Observes the state changes of circuit breakers. Each transition calls
/// exactly one of these methods on every registered listener.
pub trait StateChangeListener {
    /// Called when a breaker has moved to `Closed` from `prev`.
    fn on_transform_to_closed(&self, prev: State, rule: Arc<Rule>);

    /// Called when a breaker has moved to `Open` from `prev`; the snapshot is
    /// the value that triggered the move.
    fn on_transform_to_open(&self, prev: State, rule: Arc<Rule>, snapshot: Option<Snapshot>);

    /// Called when a breaker has moved to `HalfOpen` from `prev`.
    fn on_transform_to_half_open(&self, prev: State, rule: Arc<Rule>);
}

/// One entry of a breaker's record of transitions, as its listeners are told
/// of it: the state left, the state entered, and the snapshot handed over
/// (moves to `Open` only).
#[derive(Debug, Copy, Clone, PartialEq, Eq)]
pub struct StateEvent {
    pub prev: State,
    pub next: State,
    pub snapshot: Option<Snapshot>,
}

/// An append-only, ordered collection of listeners. The host builds it at
/// startup and shares it with the breakers it then constructs.
pub struct ListenerRegistry<L> {
    listeners: Vec<L>,
}

impl<L: StateChangeListener> ListenerRegistry<L> {
    /// The registered listeners, in registration order.
    pub closed spec fn members(&self) -> Seq<L> {
        self.listeners@
    }

    /// The number of registered listeners.
    pub open spec fn count(&self) -> nat {
        self.members().len()
    }

    pub fn new() -> (r: ListenerRegistry<L>)
        ensures
            r.members() == Seq::<L>::empty(),
    {
        ListenerRegistry { listeners: Vec::new() }
    }

    /// Registers a listener after those already there.
    pub fn register(&mut self, listener: L)
        ensures
            final(self).members() == old(self).members().push(listener),
    {
        self.listeners.push(listener);
    }

    pub fn len(&self) -> (r: usize)
        ensures
            r == self.count(),
    {
        self.listeners.len()
    }

    /// Tells every listener, in registration order, of a move to `Closed`, and
    /// returns the entry for the record of transitions.
    pub fn notify_closed(&self, prev: State, rule: &Arc<Rule>) -> (e: Ghost<StateEvent>)
        ensures
            e@ == (StateEvent { prev, next: State::Closed, snapshot: None }),
    {
        let mut i: usize = 0;
        while i < self.listeners.len()
            decreases self.listeners@.len() - i,
        {
            self.listeners[i].on_transform_to_closed(prev, Arc::clone(rule));
            i = i + 1;
        }
        Ghost(StateEvent { prev, next: State::Closed, snapshot: None })
    }

    /// Tells every listener, in registration order, of a move to `Open`, and
    /// returns the entry for the record of transitions.
    pub fn notify_open(&self, prev: State, rule: &Arc<Rule>, snapshot: Snapshot) -> (e: Ghost<StateEvent>)
        ensures
            e@ == (StateEvent { prev, next: State::Open, snapshot: Some(snapshot) }),
    {
        let mut i: usize = 0;
        while i < self.listeners.len()
            decreases self.listeners@.len() - i,
        {
            self.listeners[i].on_transform_to_open(prev, Arc::clone(rule), Some(snapshot));
            i = i + 1;
        }
        Ghost(StateEvent { prev, next: State::Open, snapshot: Some(snapshot) })
    }

    /// Tells every listener, in registration order, of a move to `HalfOpen`, and
    /// returns the entry for the record of transitions.
    pub fn notify_half_open(&self, prev: State, rule: &Arc<Rule>) -> (e: Ghost<StateEvent>)
        ensures
            e@ == (StateEvent { prev, next: State::HalfOpen, snapshot: None }),
    {
        let mut i: usize = 0;
        while i < self.listeners.len()
            decreases self.listeners@.len() - i,
        {
            self.listeners[i].on_transform_to_half_open(prev, Arc::clone(rule));
            i = i + 1;
        }
        Ghost(StateEvent { prev, next: State::HalfOpen, snapshot: None })
    }
}

} // verus!
