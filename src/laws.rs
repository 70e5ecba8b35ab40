use vstd::prelude::*;
use crate::breaker::{retry_at, EntryContext};
use crate::listener::StateChangeListener;
use crate::stat::{lemma_cleared_then_one, CounterLeapArray};
use crate::state::{attempt, is_edge, State};
use crate::strategy::{
    armed, is_slow, passes, state_after_exit, state_after_pass, steps, trips, CircuitBreaker,
};

verus! {

/// A run of states in which each one stays or follows an edge of the graph.
pub open spec fn is_path(s: Seq<State>) -> bool {
    forall|i: int| 0 <= i < s.len() - 1 ==> #[trigger] steps(s[i], s[i + 1])
}

proof fn lemma_half_open_preceded(s: Seq<State>, j: int)
    requires
        is_path(s),
        s.len() > 0,
        s[0] == State::Closed,
        0 <= j < s.len(),
        s[j] == State::HalfOpen,
    ensures
        exists|k: int| 0 <= k < j && #[trigger] s[k] == State::Open,
    decreases j,
{
    assert(j > 0);
    let i = j - 1;
    assert(steps(s[i], s[i + 1]));
    if s[j - 1] == State::HalfOpen {
        lemma_half_open_preceded(s, j - 1);
        let k = choose|k: int| 0 <= k < j - 1 && #[trigger] s[k] == State::Open;
        assert(s[k] == State::Open);
    } else {
        assert(s[j - 1] == State::Open);
    }
}

/// Every change of state along a run follows an edge (none is skipped), and a
/// run that starts closed reaches half-open only after it has been open.
pub proof fn lemma_runs_follow_the_graph(s: Seq<State>)
    requires
        is_path(s),
        s.len() > 0,
        s[0] == State::Closed,
    ensures
        forall|i: int| 0 <= i < s.len() - 1 && s[i] != s[i + 1] ==> #[trigger] is_edge(s[i], s[i + 1]),
        forall|j: int| 0 <= j < s.len() && #[trigger] s[j] == State::HalfOpen
            ==> exists|k: int| 0 <= k < j && #[trigger] s[k] == State::Open,
{
    assert forall|i: int| 0 <= i < s.len() - 1 && s[i] != s[i + 1] implies #[trigger] is_edge(s[i], s[i + 1]) by {
        assert(steps(s[i], s[i + 1]));
    }
    assert forall|j: int| 0 <= j < s.len() && #[trigger] s[j] == State::HalfOpen
        implies exists|k: int| 0 <= k < j && #[trigger] s[k] == State::Open by {
        lemma_half_open_preceded(s, j);
    }
}

/// An open breaker admits at most one probe per opening: every call before
/// the recovery time is denied, and once one call has moved the breaker to
/// half-open every later call is denied, whenever it comes.
pub proof fn lemma_one_probe_per_opening(next_retry: u128, now: u64, later: u64)
    ensures
        now < next_retry ==> !passes(State::Open, now, next_retry),
        passes(State::Open, now, next_retry) ==> !passes(
            state_after_pass(State::Open, now, next_retry),
            later,
            next_retry,
        ),
{
}

/// A probe admitted from an open breaker through a call with an entry, that
/// is then found blocked, moves the breaker back to open when the call exits.
pub proof fn lemma_blocked_probe_rolls_back(ctx: EntryContext, now: u64, next_retry: u128)
    requires
        ctx.has_entry,
        now >= next_retry,
    ensures
        passes(State::Open, now, next_retry),
        state_after_pass(State::Open, now, next_retry) == State::HalfOpen,
        state_after_exit(
            EntryContext { blocked: true, ..armed(ctx) },
            state_after_pass(State::Open, now, next_retry),
        ) == State::Open,
{
}

/// After a reset, every read of the window sums to zero, and the next
/// completed request is judged on itself alone: no earlier outcome counts.
pub proof fn lemma_reset_forgets<L: StateChangeListener>(
    b: CircuitBreaker<L>,
    now: u64,
    rt: u64,
    is_error: bool,
)
    requires
        b.wf(),
        b.spec_stat().is_cleared(),
    ensures
        b.spec_stat().window_total(now) == 0,
        b.spec_stat().window_errors(now) == 0,
        b.spec_stat().window_slow(now) == 0,
        b.trips_on(b.window_after(now, rt, is_error), now) == trips(
            b.spec_rule(),
            1,
            if is_error { 1 } else { 0 },
            if is_slow(b.spec_rule(), rt) { 1 } else { 0 },
        ),
{
    crate::stat::lemma_cleared_sums_zero(&b.spec_stat(), now);
    lemma_cleared_then_one(&b.spec_stat(), now, is_error, is_slow(b.spec_rule(), rt));
}

/// A breaker opened at `opened_at` denies every call until `opened_at` plus
/// the recovery timeout, and from then on the next call wins the move to
/// half-open.
pub proof fn lemma_recovery_timing(opened_at: u64, retry_timeout_ms: u32, now: u64)
    ensures
        passes(State::Open, now, retry_at(opened_at, retry_timeout_ms)) <==> now >= opened_at
            + retry_timeout_ms,
        state_after_pass(State::Open, now, retry_at(opened_at, retry_timeout_ms)) == if now
            >= opened_at + retry_timeout_ms {
            State::HalfOpen
        } else {
            State::Open
        },
{
}

/// How many of `n` calls in a row of the guarded transition from `from` to
/// `to`, the first on a breaker in state `s`, make the move.
pub open spec fn winners(s: State, from: State, to: State, n: nat) -> nat
    decreases n,
{
    if n == 0 {
        0
    } else {
        (if s == from { 1nat } else { 0nat }) + winners(attempt(s, from, to), from, to, (n - 1) as nat)
    }
}

proof fn lemma_no_winner_after_move(from: State, to: State, n: nat)
    requires
        from != to,
    ensures
        winners(to, from, to, n) == 0,
    decreases n,
{
    if n > 0 {
        lemma_no_winner_after_move(from, to, (n - 1) as nat);
    }
}

/// Of any number `n >= 1` of callers that race on one guarded transition of
/// a breaker in its source state, taken in the order the lock admits them,
/// exactly one makes the move and every other one fails; the breaker ends in
/// the target state.
pub proof fn lemma_race_has_one_winner(from: State, to: State, n: nat)
    requires
        is_edge(from, to),
        n >= 1,
    ensures
        winners(from, from, to, n) == 1,
        attempt(from, from, to) == to,
{
    lemma_no_winner_after_move(from, to, (n - 1) as nat);
}

} // verus!
