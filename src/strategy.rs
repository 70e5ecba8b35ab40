use std::sync::Arc;
use vstd::prelude::*;
use crate::breaker::{retry_at, BreakerBase, EntryContext};
use crate::listener::{ListenerRegistry, StateChangeListener, StateEvent};
use crate::rule::{Rule, Snapshot};
use crate::stat::{cap, sum_errors, sum_slow, sum_total, CounterLeapArray, MetricSummary};
use crate::state::{is_edge, BreakerStrategy, State};

verus! {

/// Whether the strategy `s` has a built-in implementation.
pub open spec fn is_builtin(s: BreakerStrategy) -> bool {
    s !is Custom
}

/// Whether a request of latency `rt` is slow under `rule`.
pub open spec fn is_slow(rule: Rule, rt: u64) -> bool {
    rt > rule.max_allowed_rt_ms
}

/// The trip predicate of a closed breaker over the window's aggregate: at
/// least `min_request_amount` requests, and then an error count or a ratio of
/// errors or of slow requests at or above the threshold.
pub open spec fn trips(rule: Rule, total: int, errors: int, slow: int) -> bool {
    &&& total >= rule.min_request_amount
    &&& match rule.strategy {
        BreakerStrategy::ErrorCount => errors * rule.threshold_denom >= rule.threshold_numer,
        BreakerStrategy::ErrorRatio => total > 0 && errors * rule.threshold_denom
            >= rule.threshold_numer * total,
        BreakerStrategy::SlowRequestRatio => total > 0 && slow * rule.threshold_denom
            >= rule.threshold_numer * total,
        BreakerStrategy::Custom(_) => false,
    }
}

/// The value that made a closed breaker trip: the error count, the error
/// ratio or the slow ratio.
pub open spec fn trip_snapshot(rule: Rule, total: u64, errors: u64, slow: u64) -> Snapshot {
    match rule.strategy {
        BreakerStrategy::ErrorCount => Snapshot { numer: errors, denom: 1 },
        BreakerStrategy::ErrorRatio => Snapshot { numer: errors, denom: total },
        _ => Snapshot { numer: slow, denom: total },
    }
}

/// Whether a half-open probe failed: it reported an error, or, for the
/// slow-request strategy, it was slow.
pub open spec fn probe_failed(rule: Rule, rt: u64, is_error: bool) -> bool {
    match rule.strategy {
        BreakerStrategy::SlowRequestRatio => is_slow(rule, rt),
        _ => is_error,
    }
}

proof fn lemma_product_fits(a: u64, b: u64)
    ensures
        a * b <= u128::MAX,
{
    assert(a * b <= u64::MAX * u64::MAX) by (nonlinear_arith)
        requires
            a <= u64::MAX,
            b <= u64::MAX,
    ;
}

/// Whether `try_pass` lets a call through at `now` from state `s`, with the
/// recovery timer armed for `next_retry`.
pub open spec fn passes(s: State, now: u64, next_retry: u128) -> bool {
    s == State::Closed || (s == State::Open && now >= next_retry)
}

/// The state after `try_pass` at `now` from state `s`.
pub open spec fn state_after_pass(s: State, now: u64, next_retry: u128) -> State {
    if s == State::Open && now >= next_retry { State::HalfOpen } else { s }
}

/// The context of the call that moved a breaker to half-open: its rollback
/// hook is armed where it has an entry.
pub open spec fn armed(ctx: EntryContext) -> EntryContext {
    EntryContext { rollback_on_exit: ctx.has_entry || ctx.rollback_on_exit, ..ctx }
}

/// The state after the exit hook of the call with context `ctx` ran on a
/// breaker in state `s`.
pub open spec fn state_after_exit(ctx: EntryContext, s: State) -> State {
    if ctx.rollback_on_exit && ctx.blocked && s == State::HalfOpen { State::Open } else { s }
}

/// A state sequence takes one step when it stays or follows an edge.
pub open spec fn steps(a: State, b: State) -> bool {
    a == b || is_edge(a, b)
}

/// The state after a completed request: a closed breaker opens where the
/// window trips, a half-open one opens on a failed probe and closes on a good
/// one, an open one stays open.
pub open spec fn state_after_completion(s: State, tripped: bool, failed: bool) -> State {
    match s {
        State::Closed => if tripped { State::Open } else { State::Closed },
        State::HalfOpen => if failed { State::Open } else { State::Closed },
        State::Open => State::Open,
    }
}

/// The snapshot that the listeners receive when a completed request moves a
/// breaker from `prev` to `next`, the window then reading `m`.
pub open spec fn completion_snapshot(rule: Rule, prev: State, next: State, m: MetricSummary) -> Option<
    Snapshot,
> {
    if next == State::Closed {
        None
    } else if prev == State::Closed {
        Some(trip_snapshot(rule, m.total, m.errors, m.slow))
    } else {
        Some(Snapshot { numer: 1, denom: 1 })
    }
}

/// Decides whether a closed breaker trips on the aggregate `m`; where it does,
/// returns the snapshot to hand to the listeners.
pub fn check_trip(rule: &Rule, m: MetricSummary) -> (r: Option<Snapshot>)
    ensures
        r is Some <==> trips(*rule, m.total as int, m.errors as int, m.slow as int),
        r is Some ==> r->0 == trip_snapshot(*rule, m.total, m.errors, m.slow),
{
    if m.total < rule.min_request_amount {
        return None;
    }
    proof {
        lemma_product_fits(m.errors, rule.threshold_denom);
        lemma_product_fits(m.slow, rule.threshold_denom);
        lemma_product_fits(rule.threshold_numer, m.total);
    }
    let denom = rule.threshold_denom as u128;
    let numer = rule.threshold_numer as u128;
    let tripped = match rule.strategy {
        BreakerStrategy::ErrorCount => (m.errors as u128) * denom >= numer,
        BreakerStrategy::ErrorRatio => m.total > 0 && (m.errors as u128) * denom >= numer * (m.total as u128),
        BreakerStrategy::SlowRequestRatio => m.total > 0 && (m.slow as u128) * denom >= numer * (m.total as u128),
        BreakerStrategy::Custom(_) => false,
    };
    if !tripped {
        None
    } else {
        match rule.strategy {
            BreakerStrategy::ErrorCount => Some(Snapshot { numer: m.errors, denom: 1 }),
            BreakerStrategy::ErrorRatio => Some(Snapshot { numer: m.errors, denom: m.total }),
            _ => Some(Snapshot { numer: m.slow, denom: m.total }),
        }
    }
}

/// The operations that the call-admission framework drives on a breaker.
pub trait CircuitBreakerTrait {
    /// The breaker is well formed.
    spec fn inv(&self) -> bool;

    /// The rule the breaker was built for.
    spec fn rule_view(&self) -> Rule;

    /// The current state.
    spec fn state_view(&self) -> State;

    /// The time from which an open breaker may probe.
    spec fn next_retry_view(&self) -> u128;

    /// The statistic window.
    spec fn stat_view(&self) -> CounterLeapArray;

    /// Whether a closed breaker trips once a request of latency `rt`, with
    /// or without an error, is recorded at `now`.
    spec fn trips_after(&self, now: u64, rt: u64, is_error: bool) -> bool;

    /// The associated circuit breaking rule.
    fn bound_rule(&self) -> (r: &Arc<Rule>)
        ensures
            **r == self.rule_view(),
    ;

    /// The associated statistic data structure.
    fn stat(&self) -> (r: &CounterLeapArray)
        ensures
            *r == self.stat_view(),
    ;

    /// Acquires permission for a call at `now_ms`, by the state machine of
    /// the breaker.
    fn try_pass(&mut self, now_ms: u64, ctx: &mut EntryContext) -> (r: bool)
        requires
            old(self).inv(),
        ensures
            final(self).inv(),
            r == passes(old(self).state_view(), now_ms, old(self).next_retry_view()),
            final(self).state_view() == state_after_pass(old(self).state_view(), now_ms, old(self).next_retry_view()),
            final(self).next_retry_view() == old(self).next_retry_view(),
            final(self).rule_view() == old(self).rule_view(),
    ;

    fn current_state(&self) -> (r: State)
        ensures
            r == self.state_view(),
    ;

    /// Records a finished call that had been let through and moves the
    /// breaker as its strategy decides.
    fn on_request_complete(&mut self, now_ms: u64, rt: u64, is_error: bool)
        requires
            old(self).inv(),
        ensures
            final(self).inv(),
            final(self).rule_view() == old(self).rule_view(),
            final(self).state_view() == state_after_completion(
                old(self).state_view(),
                old(self).trips_after(now_ms, rt, is_error),
                probe_failed(old(self).rule_view(), rt, is_error),
            ),
            final(self).next_retry_view() == if final(self).state_view() == State::Open
                && old(self).state_view() != State::Open {
                retry_at(now_ms, old(self).rule_view().retry_timeout_ms)
            } else {
                old(self).next_retry_view()
            },
            old(self).state_view() == State::HalfOpen && final(self).state_view() == State::Closed
                ==> final(self).stat_view().is_cleared(),
    ;

    /// Empties the statistic window.
    fn reset_metric(&mut self)
        requires
            old(self).inv(),
        ensures
            final(self).inv(),
            final(self).rule_view() == old(self).rule_view(),
            final(self).state_view() == old(self).state_view(),
            final(self).next_retry_view() == old(self).next_retry_view(),
            final(self).stat_view().is_cleared(),
    ;
}

/// A circuit breaker of one of the built-in strategies: the shared state
/// machine and the sliding-window counter that its strategy reads.
pub struct CircuitBreaker<L> {
    base: BreakerBase<L>,
    stat: CounterLeapArray,
}

impl<L: StateChangeListener> CircuitBreaker<L> {
    pub closed spec fn spec_base(&self) -> &BreakerBase<L> {
        &self.base
    }

    pub closed spec fn spec_stat(&self) -> CounterLeapArray {
        self.stat
    }

    pub open spec fn spec_rule(&self) -> Rule {
        self.spec_base().spec_rule()
    }

    pub open spec fn spec_state(&self) -> State {
        self.spec_base().spec_state()
    }

    pub open spec fn spec_next_retry(&self) -> u128 {
        self.spec_base().spec_next_retry()
    }

    /// The record of this breaker's transitions, in order.
    pub open spec fn spec_events(&self) -> Seq<StateEvent> {
        self.spec_base().spec_events()
    }

    pub open spec fn wf(&self) -> bool {
        &&& self.spec_rule().wf()
        &&& is_builtin(self.spec_rule().strategy)
        &&& self.spec_base().spec_retry_timeout() == self.spec_rule().retry_timeout_ms
        &&& self.spec_stat().wf()
        &&& self.spec_stat().interval() == self.spec_rule().stat_interval_ms
    }

    /// The breaker `b` has the same rule and counter shape as this one.
    pub open spec fn same_frame(&self, b: &Self) -> bool {
        &&& b.spec_rule() == self.spec_rule()
        &&& b.spec_base().spec_retry_timeout() == self.spec_base().spec_retry_timeout()
        &&& b.spec_base().spec_listeners() == self.spec_base().spec_listeners()
        &&& b.spec_stat().interval() == self.spec_stat().interval()
        &&& b.spec_stat().bucket_len() == self.spec_stat().bucket_len()
        &&& b.spec_stat().buckets().len() == self.spec_stat().buckets().len()
    }

    /// A closed breaker for `rule` with an empty window. Returns `None` where
    /// the rule is not valid or names a custom strategy, which has no built-in
    /// implementation.
    pub fn new(rule: Arc<Rule>, listeners: Arc<ListenerRegistry<L>>) -> (r: Option<CircuitBreaker<L>>)
        ensures
            r is Some <==> rule.wf() && is_builtin(rule.strategy),
            r is Some ==> {
                let b = r->0;
                &&& b.wf()
                &&& b.spec_rule() == *rule
                &&& b.spec_state() == State::Closed
                &&& b.spec_next_retry() == 0
                &&& b.spec_base().spec_listeners() == *listeners
                &&& b.spec_events() == Seq::<StateEvent>::empty()
                &&& b.spec_stat().buckets().len() == rule.stat_bucket_count
                &&& b.spec_stat().bucket_len() == rule.stat_interval_ms / rule.stat_bucket_count
                &&& b.spec_stat().is_cleared()
            },
    {
        if !rule.is_valid() {
            return None;
        }
        if let BreakerStrategy::Custom(_) = rule.strategy {
            return None;
        }
        let stat = CounterLeapArray::new(rule.stat_interval_ms, rule.stat_bucket_count);
        let base = BreakerBase::new(rule, listeners);
        Some(CircuitBreaker { base, stat })
    }

    /// The rule this breaker was built for.
    pub fn bound_rule(&self) -> (r: &Arc<Rule>)
        ensures
            **r == self.spec_rule(),
    {
        self.base.bound_rule()
    }

    /// The sliding-window counter of this breaker.
    pub fn stat(&self) -> (r: &CounterLeapArray)
        ensures
            *r == self.spec_stat(),
    {
        &self.stat
    }

    pub fn current_state(&self) -> (r: State)
        ensures
            r == self.spec_state(),
    {
        self.base.current_state()
    }

    /// Empties the window.
    pub fn reset_metric(&mut self)
        requires
            old(self).wf(),
        ensures
            final(self).wf(),
            old(self).same_frame(final(self)),
            final(self).spec_base() == old(self).spec_base(),
            final(self).spec_stat().is_cleared(),
    {
        self.stat.reset();
    }

    /// Asks for permission to make a call at `now_ms`. A closed breaker lets
    /// every call pass; a half-open one lets none pass; an open one lets a
    /// call pass only once the recovery timeout has come, and then only the
    /// one call that moves it to half-open, arming on `ctx` the rollback of
    /// that probe.
    pub fn try_pass(&mut self, now_ms: u64, ctx: &mut EntryContext) -> (r: bool)
        requires
            old(self).wf(),
        ensures
            final(self).wf(),
            r == passes(old(self).spec_state(), now_ms, old(self).spec_next_retry()),
            final(self).spec_state() == state_after_pass(old(self).spec_state(), now_ms, old(self).spec_next_retry()),
            steps(old(self).spec_state(), final(self).spec_state()),
            old(self).spec_state() == State::Open && r ==> {
                &&& old(self).same_frame(final(self))
                &&& final(self).spec_next_retry() == old(self).spec_next_retry()
                &&& final(self).spec_stat() == old(self).spec_stat()
                &&& final(self).spec_events() == old(self).spec_events().push(
                    StateEvent { prev: State::Open, next: State::HalfOpen, snapshot: None },
                )
                &&& *final(ctx) == armed(*old(ctx))
            },
            !(old(self).spec_state() == State::Open && r) ==> *final(self) == *old(self) && *final(ctx) == *old(ctx),
    {
        let state = self.base.current_state();
        if state == State::Closed {
            true
        } else if state == State::Open {
            self.base.retry_timeout_arrived(now_ms) && self.base.from_open_to_half_open(ctx)
        } else {
            false
        }
    }

    /// The exit hook of an admitted call, run at `now_ms`: rolls an unused
    /// half-open probe back to `Open` and re-arms the recovery timer (see
    /// `BreakerBase::on_entry_exit`).
    pub fn on_entry_exit(&mut self, now_ms: u64, ctx: &EntryContext) -> (r: bool)
        requires
            old(self).wf(),
        ensures
            final(self).wf(),
            r == (ctx.rollback_on_exit && ctx.blocked && old(self).spec_state() == State::HalfOpen),
            final(self).spec_state() == state_after_exit(*ctx, old(self).spec_state()),
            steps(old(self).spec_state(), final(self).spec_state()),
            r ==> {
                &&& old(self).same_frame(final(self))
                &&& final(self).spec_next_retry() == retry_at(now_ms, old(self).spec_rule().retry_timeout_ms)
                &&& final(self).spec_stat() == old(self).spec_stat()
                &&& final(self).spec_events() == old(self).spec_events().push(
                    StateEvent {
                        prev: State::HalfOpen,
                        next: State::Open,
                        snapshot: Some(Snapshot { numer: 1, denom: 1 }),
                    },
                )
            },
            !r ==> *final(self) == *old(self),
    {
        self.base.on_entry_exit(now_ms, ctx)
    }

    /// The buckets after a request of latency `rt` recorded at `now`.
    pub open spec fn window_after(&self, now: u64, rt: u64, is_error: bool) -> Seq<crate::stat::MetricBucket> {
        self.spec_stat().after_request(now, is_error, is_slow(self.spec_rule(), rt))
    }

    /// What an aggregate read of the window `w` at `now` returns.
    pub open spec fn summary_of(&self, w: Seq<crate::stat::MetricBucket>, now: u64) -> MetricSummary {
        let iv = self.spec_stat().interval();
        MetricSummary {
            total: cap(sum_total(w, now, iv)) as u64,
            errors: cap(sum_errors(w, now, iv)) as u64,
            slow: cap(sum_slow(w, now, iv)) as u64,
        }
    }

    /// Whether a closed breaker trips on the window `w` read at `now`.
    pub open spec fn trips_on(&self, w: Seq<crate::stat::MetricBucket>, now: u64) -> bool {
        let m = self.summary_of(w, now);
        trips(self.spec_rule(), m.total as int, m.errors as int, m.slow as int)
    }

    /// Records a finished call of latency `rt` at `now_ms`, with or without an
    /// error, and moves the breaker as its strategy decides: a closed one
    /// opens where the window now trips; a half-open one opens again on a
    /// failed probe, and on a good one closes and empties its window. Opening
    /// arms the recovery timer.
    pub fn on_request_complete(&mut self, now_ms: u64, rt: u64, is_error: bool)
        requires
            old(self).wf(),
        ensures
            final(self).wf(),
            old(self).same_frame(final(self)),
            final(self).spec_state() == state_after_completion(
                old(self).spec_state(),
                old(self).trips_on(old(self).window_after(now_ms, rt, is_error), now_ms),
                probe_failed(old(self).spec_rule(), rt, is_error),
            ),
            steps(old(self).spec_state(), final(self).spec_state()),
            final(self).spec_next_retry() == if final(self).spec_state() == State::Open
                && old(self).spec_state() != State::Open {
                retry_at(now_ms, old(self).spec_rule().retry_timeout_ms)
            } else {
                old(self).spec_next_retry()
            },
            final(self).spec_events() == if final(self).spec_state() == old(self).spec_state() {
                old(self).spec_events()
            } else {
                old(self).spec_events().push(
                    StateEvent {
                        prev: old(self).spec_state(),
                        next: final(self).spec_state(),
                        snapshot: completion_snapshot(
                            old(self).spec_rule(),
                            old(self).spec_state(),
                            final(self).spec_state(),
                            old(self).summary_of(old(self).window_after(now_ms, rt, is_error), now_ms),
                        ),
                    },
                )
            },
            old(self).spec_state() == State::HalfOpen && final(self).spec_state() == State::Closed
                ==> final(self).spec_stat().is_cleared(),
            !(old(self).spec_state() == State::HalfOpen && final(self).spec_state() == State::Closed)
                ==> final(self).spec_stat().buckets() == old(self).window_after(now_ms, rt, is_error),
    {
        let slow = rt > self.base.bound_rule().max_allowed_rt_ms;
        self.stat.add_request(now_ms, is_error, slow);
        let state = self.base.current_state();
        if state == State::Closed {
            let m = self.stat.summary(now_ms);
            let verdict = check_trip(&**self.base.bound_rule(), m);
            if let Some(snapshot) = verdict {
                self.base.from_closed_to_open(now_ms, snapshot);
            }
        } else if state == State::HalfOpen {
            let failed = match self.base.bound_rule().strategy {
                BreakerStrategy::SlowRequestRatio => slow,
                _ => is_error,
            };
            if failed {
                self.base.from_half_open_to_open(now_ms, Snapshot::one());
            } else {
                self.base.from_half_open_to_closed();
                self.stat.reset();
            }
        }
    }
}

impl<L: StateChangeListener> CircuitBreakerTrait for CircuitBreaker<L> {
    open spec fn inv(&self) -> bool {
        self.wf()
    }

    open spec fn rule_view(&self) -> Rule {
        self.spec_rule()
    }

    open spec fn state_view(&self) -> State {
        self.spec_state()
    }

    open spec fn next_retry_view(&self) -> u128 {
        self.spec_next_retry()
    }

    open spec fn stat_view(&self) -> CounterLeapArray {
        self.spec_stat()
    }

    open spec fn trips_after(&self, now: u64, rt: u64, is_error: bool) -> bool {
        self.trips_on(self.window_after(now, rt, is_error), now)
    }

    fn bound_rule(&self) -> &Arc<Rule> {
        CircuitBreaker::bound_rule(self)
    }

    fn stat(&self) -> &CounterLeapArray {
        CircuitBreaker::stat(self)
    }

    fn try_pass(&mut self, now_ms: u64, ctx: &mut EntryContext) -> bool {
        CircuitBreaker::try_pass(self, now_ms, ctx)
    }

    fn current_state(&self) -> State {
        CircuitBreaker::current_state(self)
    }

    fn on_request_complete(&mut self, now_ms: u64, rt: u64, is_error: bool) {
        CircuitBreaker::on_request_complete(self, now_ms, rt, is_error)
    }

    fn reset_metric(&mut self) {
        CircuitBreaker::reset_metric(self)
    }
}

} // verus!
