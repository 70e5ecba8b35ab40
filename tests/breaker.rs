use std::sync::{Arc, Mutex};

use sentinel_breaker::{
    check_trip, BreakerBase, BreakerStrategy, CircuitBreaker, CircuitBreakerTrait, EntryContext,
    ListenerRegistry, MetricSummary, Rule, Snapshot, State, StateChangeListener,
};

/// Records every notification as (previous state, new state, snapshot).
#[derive(Clone)]
struct Recorder {
    events: Arc<Mutex<Vec<(State, State, Option<Snapshot>)>>>,
}

impl Recorder {
    fn new() -> Recorder {
        Recorder { events: Arc::new(Mutex::new(Vec::new())) }
    }

    fn events(&self) -> Vec<(State, State, Option<Snapshot>)> {
        self.events.lock().unwrap().clone()
    }
}

impl StateChangeListener for Recorder {
    fn on_transform_to_closed(&self, prev: State, _rule: Arc<Rule>) {
        self.events.lock().unwrap().push((prev, State::Closed, None));
    }

    fn on_transform_to_open(&self, prev: State, _rule: Arc<Rule>, snapshot: Option<Snapshot>) {
        self.events.lock().unwrap().push((prev, State::Open, snapshot));
    }

    fn on_transform_to_half_open(&self, prev: State, _rule: Arc<Rule>) {
        self.events.lock().unwrap().push((prev, State::HalfOpen, None));
    }
}

fn rule(strategy: BreakerStrategy, numer: u64, denom: u64, min_request_amount: u64) -> Rule {
    Rule {
        resource: "abc".to_string(),
        strategy,
        retry_timeout_ms: 3000,
        stat_interval_ms: 1000,
        stat_bucket_count: 10,
        threshold_numer: numer,
        threshold_denom: denom,
        min_request_amount,
        max_allowed_rt_ms: 50,
    }
}

fn breaker(r: Rule) -> (CircuitBreaker<Recorder>, Recorder) {
    let rec = Recorder::new();
    let mut reg = ListenerRegistry::new();
    reg.register(rec.clone());
    let b = CircuitBreaker::new(Arc::new(r), Arc::new(reg)).expect("valid rule");
    (b, rec)
}

const T0: u64 = 1_000_000;

/// Runs the given outcomes (true for an error) at time T0.
fn complete_all(b: &mut CircuitBreaker<Recorder>, errors: &[bool]) {
    for e in errors {
        b.on_request_complete(T0, 10, *e);
    }
}

/// Drives a breaker into Open at T0.
fn opened() -> (CircuitBreaker<Recorder>, Recorder) {
    let (mut b, rec) = breaker(rule(BreakerStrategy::ErrorCount, 3, 1, 5));
    complete_all(&mut b, &[true, true, true, false, false]);
    assert_eq!(b.current_state(), State::Open);
    (b, rec)
}

#[test]
fn error_count_trips_with_three_errors_in_five() {
    let (mut b, rec) = breaker(rule(BreakerStrategy::ErrorCount, 3, 1, 5));
    complete_all(&mut b, &[false, true, false, true]);
    assert_eq!(b.current_state(), State::Closed);
    b.on_request_complete(T0, 10, true);
    assert_eq!(b.current_state(), State::Open);
    assert_eq!(
        rec.events(),
        vec![(State::Closed, State::Open, Some(Snapshot { numer: 3, denom: 1 }))]
    );
}

#[test]
fn error_count_stays_closed_with_two_errors_in_five() {
    let (mut b, rec) = breaker(rule(BreakerStrategy::ErrorCount, 3, 1, 5));
    complete_all(&mut b, &[true, false, true, false, false]);
    assert_eq!(b.current_state(), State::Closed);
    assert!(rec.events().is_empty());
}

#[test]
fn error_count_waits_for_min_request_amount() {
    let (mut b, _) = breaker(rule(BreakerStrategy::ErrorCount, 3, 1, 5));
    complete_all(&mut b, &[true, true, true, true]);
    assert_eq!(b.current_state(), State::Closed);
    b.on_request_complete(T0, 10, false);
    assert_eq!(b.current_state(), State::Open);
}

#[test]
fn error_ratio_stays_closed_with_four_errors_in_ten() {
    let (mut b, _) = breaker(rule(BreakerStrategy::ErrorRatio, 1, 2, 10));
    complete_all(&mut b, &[true, true, true, true, false, false, false, false, false, false]);
    assert_eq!(b.current_state(), State::Closed);
}

#[test]
fn error_ratio_trips_with_six_errors_in_ten() {
    let (mut b, rec) = breaker(rule(BreakerStrategy::ErrorRatio, 1, 2, 10));
    complete_all(&mut b, &[true, true, true, true, true, true, false, false, false, false]);
    assert_eq!(b.current_state(), State::Open);
    assert_eq!(
        rec.events(),
        vec![(State::Closed, State::Open, Some(Snapshot { numer: 6, denom: 10 }))]
    );
}

#[test]
fn error_ratio_trips_at_exactly_the_threshold() {
    let (mut b, _) = breaker(rule(BreakerStrategy::ErrorRatio, 1, 2, 10));
    complete_all(&mut b, &[true, true, true, true, true, false, false, false, false, false]);
    assert_eq!(b.current_state(), State::Open);
}

#[test]
fn slow_ratio_trips_on_slow_requests() {
    let (mut b, rec) = breaker(rule(BreakerStrategy::SlowRequestRatio, 1, 2, 4));
    b.on_request_complete(T0, 51, false);
    b.on_request_complete(T0, 50, false);
    b.on_request_complete(T0, 10, true);
    assert_eq!(b.current_state(), State::Closed);
    b.on_request_complete(T0, 100, false);
    assert_eq!(b.current_state(), State::Open);
    assert_eq!(
        rec.events(),
        vec![(State::Closed, State::Open, Some(Snapshot { numer: 2, denom: 4 }))]
    );
}

#[test]
fn old_requests_leave_the_window() {
    let (mut b, _) = breaker(rule(BreakerStrategy::ErrorCount, 3, 1, 3));
    complete_all(&mut b, &[true, true]);
    // one window later the two errors no longer count
    b.on_request_complete(T0 + 1000, 10, true);
    assert_eq!(b.current_state(), State::Closed);
    let m = b.stat().summary(T0 + 1000);
    assert_eq!(m, MetricSummary { total: 1, errors: 1, slow: 0 });
}

#[test]
fn summary_sums_buckets_inside_the_window() {
    let (mut b, _) = breaker(rule(BreakerStrategy::ErrorCount, 100, 1, 100));
    b.on_request_complete(T0, 10, true);
    b.on_request_complete(T0 + 150, 60, false);
    b.on_request_complete(T0 + 999, 10, true);
    assert_eq!(b.stat().summary(T0 + 999), MetricSummary { total: 3, errors: 2, slow: 1 });
    assert_eq!(b.stat().summary(T0 + 1000), MetricSummary { total: 2, errors: 1, slow: 1 });
    assert_eq!(b.stat().summary(T0 + 1150), MetricSummary { total: 1, errors: 1, slow: 0 });
}

#[test]
fn recovery_timing() {
    let (mut b, _) = opened();
    let mut ctx = EntryContext::new(true);
    assert!(!b.try_pass(T0, &mut ctx));
    assert!(!b.try_pass(T0 + 2999, &mut ctx));
    assert_eq!(b.current_state(), State::Open);
    assert!(b.try_pass(T0 + 3000, &mut ctx));
    assert_eq!(b.current_state(), State::HalfOpen);
}

#[test]
fn only_one_probe_is_admitted() {
    let (mut b, rec) = opened();
    let mut first = EntryContext::new(true);
    let mut second = EntryContext::new(true);
    assert!(b.try_pass(T0 + 5000, &mut first));
    assert!(!b.try_pass(T0 + 5000, &mut second));
    assert!(!b.try_pass(T0 + 9000, &mut second));
    assert!(first.rollback_on_exit);
    assert!(!second.rollback_on_exit);
    let half_open: Vec<_> = rec.events().into_iter().filter(|e| e.1 == State::HalfOpen).collect();
    assert_eq!(half_open.len(), 1);
}

#[test]
fn blocked_probe_rolls_back_to_open() {
    let (mut b, rec) = opened();
    let mut ctx = EntryContext::new(true);
    assert!(b.try_pass(T0 + 3000, &mut ctx));
    ctx.set_blocked();
    assert!(b.on_entry_exit(T0 + 3500, &ctx));
    assert_eq!(b.current_state(), State::Open);
    assert_eq!(
        rec.events().last().cloned(),
        Some((State::HalfOpen, State::Open, Some(Snapshot { numer: 1, denom: 1 })))
    );
    // the rollback re-armed the timer: a new probe waits a full timeout
    let mut next = EntryContext::new(true);
    assert!(!b.try_pass(T0 + 3500, &mut next));
    assert!(!b.try_pass(T0 + 6499, &mut next));
    assert!(b.try_pass(T0 + 6500, &mut next));
}

#[test]
fn probe_that_ran_does_not_roll_back() {
    let (mut b, _) = opened();
    let mut ctx = EntryContext::new(true);
    assert!(b.try_pass(T0 + 3000, &mut ctx));
    assert!(!b.on_entry_exit(T0 + 3500, &ctx));
    assert_eq!(b.current_state(), State::HalfOpen);
}

#[test]
fn probe_without_entry_gets_no_hook() {
    let (mut b, _) = opened();
    let mut ctx = EntryContext::new(false);
    assert!(b.try_pass(T0 + 3000, &mut ctx));
    assert!(!ctx.rollback_on_exit);
    ctx.set_blocked();
    assert!(!b.on_entry_exit(T0 + 3500, &ctx));
    assert_eq!(b.current_state(), State::HalfOpen);
}

#[test]
fn good_probe_closes_and_resets_the_window() {
    let (mut b, rec) = opened();
    let mut ctx = EntryContext::new(true);
    assert!(b.try_pass(T0 + 3000, &mut ctx));
    b.on_request_complete(T0 + 3010, 10, false);
    assert_eq!(b.current_state(), State::Closed);
    for t in [T0, T0 + 3010, T0 + 3500] {
        assert_eq!(b.stat().summary(t), MetricSummary { total: 0, errors: 0, slow: 0 });
    }
    // one more error does not re-trip on the stale errors
    b.on_request_complete(T0 + 3020, 10, true);
    assert_eq!(b.current_state(), State::Closed);
    assert_eq!(rec.events().last().cloned(), Some((State::HalfOpen, State::Closed, None)));
}

#[test]
fn failed_probe_reopens_and_rearms_the_timer() {
    let (mut b, rec) = opened();
    let mut ctx = EntryContext::new(true);
    assert!(b.try_pass(T0 + 3000, &mut ctx));
    b.on_request_complete(T0 + 3100, 10, true);
    assert_eq!(b.current_state(), State::Open);
    assert_eq!(
        rec.events().last().cloned(),
        Some((State::HalfOpen, State::Open, Some(Snapshot { numer: 1, denom: 1 })))
    );
    let mut next = EntryContext::new(true);
    assert!(!b.try_pass(T0 + 6099, &mut next));
    assert!(b.try_pass(T0 + 6100, &mut next));
}

#[test]
fn slow_probe_reopens() {
    let (mut b, _) = breaker(rule(BreakerStrategy::SlowRequestRatio, 1, 2, 1));
    b.on_request_complete(T0, 100, false);
    assert_eq!(b.current_state(), State::Open);
    let mut ctx = EntryContext::new(true);
    assert!(b.try_pass(T0 + 3000, &mut ctx));
    b.on_request_complete(T0 + 3000, 51, false);
    assert_eq!(b.current_state(), State::Open);
}

#[test]
fn listeners_see_each_transition_once_and_in_graph_order() {
    let (mut b, rec) = opened();
    let mut ctx = EntryContext::new(true);
    b.try_pass(T0 + 3000, &mut ctx);
    b.on_request_complete(T0 + 3000, 10, true);
    b.try_pass(T0 + 6000, &mut ctx);
    b.on_request_complete(T0 + 6000, 10, false);
    let moves: Vec<(State, State)> = rec.events().into_iter().map(|e| (e.0, e.1)).collect();
    assert_eq!(
        moves,
        vec![
            (State::Closed, State::Open),
            (State::Open, State::HalfOpen),
            (State::HalfOpen, State::Open),
            (State::Open, State::HalfOpen),
            (State::HalfOpen, State::Closed),
        ]
    );
}

#[test]
fn closed_breaker_lets_every_call_pass() {
    let (mut b, rec) = breaker(rule(BreakerStrategy::ErrorRatio, 1, 2, 10));
    let mut ctx = EntryContext::new(true);
    for t in 0..5u64 {
        assert!(b.try_pass(T0 + t, &mut ctx));
    }
    assert!(!ctx.rollback_on_exit);
    assert!(rec.events().is_empty());
}

#[test]
fn bound_rule_round_trip() {
    let r = rule(BreakerStrategy::ErrorRatio, 1, 2, 10);
    let (b, _) = breaker(r.clone());
    let bound = b.bound_rule();
    assert_eq!(bound.resource, "abc");
    assert_eq!(bound.strategy, BreakerStrategy::ErrorRatio);
    assert_eq!(bound.retry_timeout_ms, 3000);
    assert_eq!(bound.stat_interval_ms, 1000);
    assert_eq!(bound.stat_bucket_count, 10);
    assert_eq!((bound.threshold_numer, bound.threshold_denom), (1, 2));
    assert_eq!(bound.min_request_amount, 10);
    assert_eq!(bound.max_allowed_rt_ms, 50);
}

#[test]
fn custom_and_invalid_rules_build_no_breaker() {
    let reg: Arc<ListenerRegistry<Recorder>> = Arc::new(ListenerRegistry::new());
    let custom = rule(BreakerStrategy::Custom(7), 1, 2, 1);
    assert!(CircuitBreaker::new(Arc::new(custom), Arc::clone(&reg)).is_none());
    let zero_denom = rule(BreakerStrategy::ErrorRatio, 1, 0, 1);
    assert!(CircuitBreaker::new(Arc::new(zero_denom), Arc::clone(&reg)).is_none());
    let mut uneven = rule(BreakerStrategy::ErrorRatio, 1, 2, 1);
    uneven.stat_bucket_count = 3;
    assert!(CircuitBreaker::new(Arc::new(uneven), Arc::clone(&reg)).is_none());
    let mut no_buckets = rule(BreakerStrategy::ErrorRatio, 1, 2, 1);
    no_buckets.stat_bucket_count = 0;
    assert!(!no_buckets.is_valid());
    assert!(CircuitBreaker::new(Arc::new(no_buckets), reg).is_none());
}

#[test]
fn base_transitions_succeed_once() {
    let rec = Recorder::new();
    let mut reg = ListenerRegistry::new();
    reg.register(rec.clone());
    reg.register(rec.clone());
    assert_eq!(reg.len(), 2);
    let mut base = BreakerBase::new(Arc::new(rule(BreakerStrategy::ErrorCount, 1, 1, 1)), Arc::new(reg));
    assert_eq!(base.current_state(), State::Closed);
    assert!(base.retry_timeout_arrived(0));
    assert!(!base.from_half_open_to_open(5, Snapshot::one()));
    assert!(!base.from_half_open_to_closed());
    let mut ctx = EntryContext::new(true);
    assert!(!base.from_open_to_half_open(&mut ctx));
    assert!(!ctx.rollback_on_exit);
    let snap = Snapshot { numer: 4, denom: 1 };
    assert!(base.from_closed_to_open(100, snap));
    assert!(!base.from_closed_to_open(100, snap));
    assert_eq!(base.current_state(), State::Open);
    assert!(!base.retry_timeout_arrived(3099));
    assert!(base.retry_timeout_arrived(3100));
    assert!(base.from_open_to_half_open(&mut ctx));
    assert!(!base.from_open_to_half_open(&mut ctx));
    assert!(ctx.rollback_on_exit);
    assert!(base.from_half_open_to_closed());
    assert_eq!(base.current_state(), State::Closed);
    // two listeners, three transitions
    assert_eq!(rec.events().len(), 6);
    assert_eq!(rec.events()[0], (State::Closed, State::Open, Some(snap)));
}

#[test]
fn next_retry_timestamp_does_not_wrap() {
    let reg: Arc<ListenerRegistry<Recorder>> = Arc::new(ListenerRegistry::new());
    let mut base = BreakerBase::new(Arc::new(rule(BreakerStrategy::ErrorCount, 1, 1, 1)), reg);
    base.update_next_retry_timestamp(u64::MAX - 10);
    assert!(!base.retry_timeout_arrived(u64::MAX - 1));
    // u64::MAX - 10 + 3000 lies past every u64 clock reading
    assert!(!base.retry_timeout_arrived(u64::MAX));
    base.update_next_retry_timestamp(u64::MAX - 3000);
    assert!(!base.retry_timeout_arrived(u64::MAX - 1));
    assert!(base.retry_timeout_arrived(u64::MAX));
    base.update_next_retry_timestamp(7);
    assert!(!base.retry_timeout_arrived(3006));
    assert!(base.retry_timeout_arrived(3007));
}

#[test]
fn check_trip_values() {
    let count = rule(BreakerStrategy::ErrorCount, 3, 1, 5);
    assert_eq!(check_trip(&count, MetricSummary { total: 5, errors: 3, slow: 0 }), Some(Snapshot { numer: 3, denom: 1 }));
    assert_eq!(check_trip(&count, MetricSummary { total: 5, errors: 2, slow: 0 }), None);
    assert_eq!(check_trip(&count, MetricSummary { total: 4, errors: 4, slow: 0 }), None);
    let ratio = rule(BreakerStrategy::ErrorRatio, 1, 2, 10);
    assert_eq!(check_trip(&ratio, MetricSummary { total: 10, errors: 4, slow: 0 }), None);
    assert_eq!(check_trip(&ratio, MetricSummary { total: 10, errors: 6, slow: 0 }), Some(Snapshot { numer: 6, denom: 10 }));
    let slow = rule(BreakerStrategy::SlowRequestRatio, 3, 10, 0);
    assert_eq!(check_trip(&slow, MetricSummary { total: 0, errors: 0, slow: 0 }), None);
    assert_eq!(check_trip(&slow, MetricSummary { total: 10, errors: 9, slow: 2 }), None);
    assert_eq!(check_trip(&slow, MetricSummary { total: 10, errors: 0, slow: 3 }), Some(Snapshot { numer: 3, denom: 10 }));
    let big = rule(BreakerStrategy::ErrorRatio, u64::MAX, u64::MAX, 0);
    assert_eq!(check_trip(&big, MetricSummary { total: u64::MAX, errors: u64::MAX, slow: 0 }), Some(Snapshot { numer: u64::MAX, denom: u64::MAX }));
    let custom = rule(BreakerStrategy::Custom(1), 0, 1, 0);
    assert_eq!(check_trip(&custom, MetricSummary { total: 10, errors: 10, slow: 10 }), None);
}

#[test]
fn reset_metric_empties_the_window() {
    let (mut b, _) = breaker(rule(BreakerStrategy::ErrorCount, 100, 1, 100));
    complete_all(&mut b, &[true, false, true]);
    assert_eq!(b.stat().summary(T0).total, 3);
    CircuitBreakerTrait::reset_metric(&mut b);
    assert_eq!(CircuitBreakerTrait::current_state(&b), State::Closed);
    assert_eq!(b.stat().summary(T0), MetricSummary { total: 0, errors: 0, slow: 0 });
    assert_eq!(b.current_state(), State::Closed);
}

#[test]
fn defaults() {
    assert_eq!(State::default(), State::Closed);
    assert_eq!(BreakerStrategy::default(), BreakerStrategy::SlowRequestRatio);
}

/// Records its tag in a shared list on every notification.
#[derive(Clone)]
struct Tagged {
    tag: u8,
    seen: Arc<Mutex<Vec<u8>>>,
}

impl StateChangeListener for Tagged {
    fn on_transform_to_closed(&self, _prev: State, _rule: Arc<Rule>) {
        self.seen.lock().unwrap().push(self.tag);
    }

    fn on_transform_to_open(&self, _prev: State, _rule: Arc<Rule>, _snapshot: Option<Snapshot>) {
        self.seen.lock().unwrap().push(self.tag);
    }

    fn on_transform_to_half_open(&self, _prev: State, _rule: Arc<Rule>) {
        self.seen.lock().unwrap().push(self.tag);
    }
}

#[test]
fn listeners_are_notified_in_registration_order() {
    let seen = Arc::new(Mutex::new(Vec::new()));
    let mut reg = ListenerRegistry::new();
    for tag in [3u8, 1, 2] {
        reg.register(Tagged { tag, seen: Arc::clone(&seen) });
    }
    assert_eq!(reg.len(), 3);
    let mut b = CircuitBreaker::new(Arc::new(rule(BreakerStrategy::ErrorCount, 1, 1, 1)), Arc::new(reg)).unwrap();
    b.on_request_complete(T0, 10, true);
    let mut ctx = EntryContext::new(true);
    assert!(b.try_pass(T0 + 3000, &mut ctx));
    assert_eq!(*seen.lock().unwrap(), vec![3, 1, 2, 3, 1, 2]);
}

#[test]
fn rollback_rearms_from_its_own_time() {
    let (mut b, _) = opened();
    let mut ctx = EntryContext::new(true);
    assert!(b.try_pass(T0 + 10_000, &mut ctx));
    ctx.set_blocked();
    assert!(b.on_entry_exit(T0 + 10_001, &ctx));
    let mut next = EntryContext::new(true);
    assert!(!b.try_pass(T0 + 13_000, &mut next));
    assert!(b.try_pass(T0 + 13_001, &mut next));
}
