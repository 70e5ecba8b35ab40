use std::sync::Arc;
use vstd::prelude::*;
use crate::listener::{ListenerRegistry, StateChangeListener, StateEvent};
use crate::rule::{Rule, Snapshot};
use crate::state::{attempt, State};

verus! {

/// `now + timeout`, held exactly: it may pass `u64::MAX`, and then no
/// reading of a `u64` clock reaches it.
pub open spec fn retry_at(now: u64, timeout: u32) -> u128 {
    (now + timeout) as u128
}

/// What the breaker knows of the call it admits: whether the call has an
/// entry that can carry an exit hook, whether the call ended up blocked, and
/// whether a half-open probe armed its rollback hook on it.
#[derive(Debug, Copy, Clone, PartialEq, Eq, Structural)]
pub struct EntryContext {
    pub has_entry: bool,
    pub blocked: bool,
    pub rollback_on_exit: bool,
}

impl EntryContext {
    /// The context of a call that is not blocked and has no hook yet.
    pub fn new(has_entry: bool) -> (r: EntryContext)
        ensures
            r.has_entry == has_entry,
            !r.blocked,
            !r.rollback_on_exit,
    {
        EntryContext { has_entry, blocked: false, rollback_on_exit: false }
    }

    pub fn is_blocked(&self) -> (r: bool)
        ensures
            r == self.blocked,
    {
        self.blocked
    }

    /// Marks the call as blocked by some other check.
    pub fn set_blocked(&mut self)
        ensures
            *final(self) == (EntryContext { blocked: true, ..*old(self) }),
    {
        self.blocked = true;
    }
}

/// The fields and transitions that every circuit breaker shares: the bound
/// rule, the state, and the time from which an open breaker may probe.
pub struct BreakerBase<L> {
    rule: Arc<Rule>,
    /// How long the breaker stays open before it admits a probe.
    retry_timeout_ms: u32,
    /// The time from which an open breaker may probe.
    next_retry_timestamp_ms: u128,
    state: State,
    listeners: Arc<ListenerRegistry<L>>,
    /// The record of the transitions made so far, one entry per transition.
    events: Ghost<Seq<StateEvent>>,
}

impl<L: StateChangeListener> BreakerBase<L> {
    pub closed spec fn spec_rule(&self) -> Rule {
        *self.rule
    }

    pub closed spec fn spec_state(&self) -> State {
        self.state
    }

    pub closed spec fn spec_next_retry(&self) -> u128 {
        self.next_retry_timestamp_ms
    }

    pub closed spec fn spec_retry_timeout(&self) -> u32 {
        self.retry_timeout_ms
    }

    /// The listeners this breaker notifies.
    pub closed spec fn spec_listeners(&self) -> ListenerRegistry<L> {
        *self.listeners
    }

    /// The record of the transitions made so far, in order.
    pub closed spec fn spec_events(&self) -> Seq<StateEvent> {
        self.events@
    }

    /// The breaker `b` after a move to `s`: its rule, timeout and listeners
    /// kept, its next retry time set to `next`, and one entry for the move,
    /// with `snapshot`, added to the record of transitions.
    pub open spec fn moved(&self, b: &Self, s: State, next: u128, snapshot: Option<Snapshot>) -> bool {
        &&& b.spec_rule() == self.spec_rule()
        &&& b.spec_retry_timeout() == self.spec_retry_timeout()
        &&& b.spec_listeners() == self.spec_listeners()
        &&& b.spec_state() == s
        &&& b.spec_next_retry() == next
        &&& b.spec_events() == self.spec_events().push(
            StateEvent { prev: self.spec_state(), next: s, snapshot },
        )
    }

    /// A closed breaker for `rule`, which may probe at once once opened and
    /// notifies the listeners of `listeners`.
    pub fn new(rule: Arc<Rule>, listeners: Arc<ListenerRegistry<L>>) -> (r: BreakerBase<L>)
        ensures
            r.spec_rule() == *rule,
            r.spec_retry_timeout() == rule.retry_timeout_ms,
            r.spec_state() == State::Closed,
            r.spec_next_retry() == 0,
            r.spec_listeners() == *listeners,
            r.spec_events() == Seq::<StateEvent>::empty(),
    {
        let retry_timeout_ms = rule.retry_timeout_ms;
        BreakerBase {
            rule,
            retry_timeout_ms,
            next_retry_timestamp_ms: 0,
            state: State::Closed,
            listeners,
            events: Ghost(Seq::empty()),
        }
    }

    /// The rule this breaker was built for.
    pub fn bound_rule(&self) -> (r: &Arc<Rule>)
        ensures
            **r == self.spec_rule(),
    {
        &self.rule
    }

    pub fn current_state(&self) -> (r: State)
        ensures
            r == self.spec_state(),
    {
        self.state
    }

    /// Tells whether the recovery timeout has passed at `now_ms`.
    pub fn retry_timeout_arrived(&self, now_ms: u64) -> (r: bool)
        ensures
            r == (now_ms >= self.spec_next_retry()),
    {
        now_ms as u128 >= self.next_retry_timestamp_ms
    }

    /// Sets the next retry time to `now_ms` plus the recovery timeout.
    pub fn update_next_retry_timestamp(&mut self, now_ms: u64)
        ensures
            final(self).spec_next_retry() == retry_at(now_ms, old(self).spec_retry_timeout()),
            final(self).spec_state() == old(self).spec_state(),
            final(self).spec_rule() == old(self).spec_rule(),
            final(self).spec_retry_timeout() == old(self).spec_retry_timeout(),
            final(self).spec_listeners() == old(self).spec_listeners(),
            final(self).spec_events() == old(self).spec_events(),
    {
        self.next_retry_timestamp_ms = now_ms as u128 + self.retry_timeout_ms as u128;
    }

    /// Moves a closed breaker to `Open` at `now_ms`, arms the recovery timer
    /// and notifies the listeners with `snapshot`. Returns whether this call
    /// made the move; on any other state nothing changes.
    pub fn from_closed_to_open(&mut self, now_ms: u64, snapshot: Snapshot) -> (r: bool)
        ensures
            final(self).spec_state() == attempt(old(self).spec_state(), State::Closed, State::Open),
            r == (old(self).spec_state() == State::Closed),
            r ==> old(self).moved(
                final(self),
                State::Open,
                retry_at(now_ms, old(self).spec_retry_timeout()),
                Some(snapshot),
            ),
            !r ==> *final(self) == *old(self),
    {
        if self.state == State::Closed {
            self.state = State::Open;
            self.update_next_retry_timestamp(now_ms);
            let e = self.listeners.notify_open(State::Closed, &self.rule, snapshot);
            self.events = Ghost(self.events@.push(e@));
            true
        } else {
            false
        }
    }

    /// Moves an open breaker to `HalfOpen` and notifies the listeners. Where
    /// the call has an entry, arms on `ctx` the hook that rolls the breaker
    /// back to `Open` if the call ends up blocked (see `on_entry_exit`).
    /// Returns whether this call made the move; on any other state nothing
    /// changes.
    pub fn from_open_to_half_open(&mut self, ctx: &mut EntryContext) -> (r: bool)
        ensures
            final(self).spec_state() == attempt(old(self).spec_state(), State::Open, State::HalfOpen),
            r == (old(self).spec_state() == State::Open),
            r ==> old(self).moved(final(self), State::HalfOpen, old(self).spec_next_retry(), None),
            r ==> *final(ctx) == (EntryContext { rollback_on_exit: old(ctx).has_entry || old(ctx).rollback_on_exit, ..*old(ctx) }),
            !r ==> *final(self) == *old(self) && *final(ctx) == *old(ctx),
    {
        if self.state == State::Open {
            self.state = State::HalfOpen;
            let e = self.listeners.notify_half_open(State::Open, &self.rule);
            self.events = Ghost(self.events@.push(e@));
            if ctx.has_entry {
                ctx.rollback_on_exit = true;
            }
            true
        } else {
            false
        }
    }

    /// The exit hook of a call that was admitted as a half-open probe: where
    /// the hook is armed, the call ended up blocked and the breaker is still
    /// half-open at `now_ms`, the unused probe slot is taken back by moving to
    /// `Open` (with the snapshot one), which re-arms the recovery timer.
    /// Returns whether it made the move.
    pub fn on_entry_exit(&mut self, now_ms: u64, ctx: &EntryContext) -> (r: bool)
        ensures
            r == (ctx.rollback_on_exit && ctx.blocked && old(self).spec_state() == State::HalfOpen),
            r ==> old(self).moved(
                final(self),
                State::Open,
                retry_at(now_ms, old(self).spec_retry_timeout()),
                Some(Snapshot { numer: 1, denom: 1 }),
            ),
            !r ==> *final(self) == *old(self),
    {
        if ctx.rollback_on_exit && ctx.is_blocked() && self.state == State::HalfOpen {
            self.state = State::Open;
            self.update_next_retry_timestamp(now_ms);
            let e = self.listeners.notify_open(State::HalfOpen, &self.rule, Snapshot::one());
            self.events = Ghost(self.events@.push(e@));
            true
        } else {
            false
        }
    }

    /// Moves a half-open breaker back to `Open` at `now_ms` after a failed
    /// probe, re-arms the recovery timer and notifies the listeners. Returns
    /// whether this call made the move; on any other state nothing changes.
    pub fn from_half_open_to_open(&mut self, now_ms: u64, snapshot: Snapshot) -> (r: bool)
        ensures
            final(self).spec_state() == attempt(old(self).spec_state(), State::HalfOpen, State::Open),
            r == (old(self).spec_state() == State::HalfOpen),
            r ==> old(self).moved(
                final(self),
                State::Open,
                retry_at(now_ms, old(self).spec_retry_timeout()),
                Some(snapshot),
            ),
            !r ==> *final(self) == *old(self),
    {
        if self.state == State::HalfOpen {
            self.state = State::Open;
            self.update_next_retry_timestamp(now_ms);
            let e = self.listeners.notify_open(State::HalfOpen, &self.rule, snapshot);
            self.events = Ghost(self.events@.push(e@));
            true
        } else {
            false
        }
    }

    /// Moves a half-open breaker to `Closed` after a successful probe and
    /// notifies the listeners. Returns whether this call made the move; on
    /// any other state nothing changes.
    pub fn from_half_open_to_closed(&mut self) -> (r: bool)
        ensures
            final(self).spec_state() == attempt(old(self).spec_state(), State::HalfOpen, State::Closed),
            r == (old(self).spec_state() == State::HalfOpen),
            r ==> old(self).moved(final(self), State::Closed, old(self).spec_next_retry(), None),
            !r ==> *final(self) == *old(self),
    {
        if self.state == State::HalfOpen {
            self.state = State::Closed;
            let e = self.listeners.notify_closed(State::HalfOpen, &self.rule);
            self.events = Ghost(self.events@.push(e@));
            true
        } else {
            false
        }
    }
}

} // verus!
