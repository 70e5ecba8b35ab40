use vstd::prelude::*;

verus! {

/// One time slot of the sliding window and what was recorded in it.
#[derive(Debug, Copy, Clone, PartialEq, Eq, Structural)]
pub struct MetricBucket {
    /// The start of the slot, a multiple of the bucket length.
    pub start_ms: u64,
    pub total: u64,
    pub errors: u64,
    pub slow: u64,
}

/// What an aggregate read of the window returns: each count is the sum over
/// the buckets still in the window, capped at `u64::MAX`.
#[derive(Debug, Copy, Clone, PartialEq, Eq, Structural)]
pub struct MetricSummary {
    pub total: u64,
    pub errors: u64,
    pub slow: u64,
}

pub open spec fn empty_bucket() -> MetricBucket {
    MetricBucket { start_ms: 0, total: 0, errors: 0, slow: 0 }
}

pub open spec fn sat_inc(x: u64) -> u64 {
    if x < u64::MAX { (x + 1) as u64 } else { x }
}

pub open spec fn cap(x: int) -> int {
    if x < u64::MAX { x } else { u64::MAX as int }
}

/// A bucket counts at `now` while its slot started no later than `now` and
/// less than one window length before it.
pub open spec fn in_window(b: MetricBucket, now: u64, interval: u64) -> bool {
    b.start_ms <= now && now - b.start_ms < interval
}

/// The sum of `f` over the buckets of `s` that count at `now`.
pub open spec fn window_sum(
    s: Seq<MetricBucket>,
    now: u64,
    interval: u64,
    f: spec_fn(MetricBucket) -> int,
) -> int
    decreases s.len(),
{
    if s.len() == 0 {
        0
    } else {
        window_sum(s.drop_last(), now, interval, f) + if in_window(s.last(), now, interval) {
            f(s.last())
        } else {
            0
        }
    }
}

pub open spec fn total_of(b: MetricBucket) -> int {
    b.total as int
}

pub open spec fn errors_of(b: MetricBucket) -> int {
    b.errors as int
}

pub open spec fn slow_of(b: MetricBucket) -> int {
    b.slow as int
}

/// What one recorded request makes of the bucket `b` in the slot starting at
/// `start`: a bucket of an older slot is started afresh first.
pub open spec fn recorded(b: MetricBucket, start: u64, is_error: bool, is_slow: bool) -> MetricBucket {
    let base = if b.start_ms == start { b } else { MetricBucket { start_ms: start, ..empty_bucket() } };
    MetricBucket {
        start_ms: start,
        total: sat_inc(base.total),
        errors: if is_error { sat_inc(base.errors) } else { base.errors },
        slow: if is_slow { sat_inc(base.slow) } else { base.slow },
    }
}

pub open spec fn sum_total(s: Seq<MetricBucket>, now: u64, interval: u64) -> int {
    window_sum(s, now, interval, |b: MetricBucket| total_of(b))
}

pub open spec fn sum_errors(s: Seq<MetricBucket>, now: u64, interval: u64) -> int {
    window_sum(s, now, interval, |b: MetricBucket| errors_of(b))
}

pub open spec fn sum_slow(s: Seq<MetricBucket>, now: u64, interval: u64) -> int {
    window_sum(s, now, interval, |b: MetricBucket| slow_of(b))
}

proof fn lemma_sums_nonneg(s: Seq<MetricBucket>, now: u64, interval: u64)
    ensures
        sum_total(s, now, interval) >= 0,
        sum_errors(s, now, interval) >= 0,
        sum_slow(s, now, interval) >= 0,
    decreases s.len(),
{
    if s.len() > 0 {
        lemma_sums_nonneg(s.drop_last(), now, interval);
    }
}

/// The sums over buckets that are all empty are zero.
proof fn lemma_sums_zero(s: Seq<MetricBucket>, now: u64, interval: u64)
    requires
        forall|i: int| 0 <= i < s.len() ==> #[trigger] s[i] == empty_bucket(),
    ensures
        sum_total(s, now, interval) == 0,
        sum_errors(s, now, interval) == 0,
        sum_slow(s, now, interval) == 0,
    decreases s.len(),
{
    if s.len() > 0 {
        lemma_sums_zero(s.drop_last(), now, interval);
    }
}

/// The sums over buckets that are all empty but the one at `k`, which is in
/// the window, are the counts of that bucket.
proof fn lemma_sums_single(s: Seq<MetricBucket>, k: int, now: u64, interval: u64)
    requires
        0 <= k < s.len(),
        forall|i: int| 0 <= i < s.len() && i != k ==> #[trigger] s[i] == empty_bucket(),
        in_window(s[k], now, interval),
    ensures
        sum_total(s, now, interval) == s[k].total,
        sum_errors(s, now, interval) == s[k].errors,
        sum_slow(s, now, interval) == s[k].slow,
    decreases s.len(),
{
    if k == s.len() - 1 {
        lemma_sums_zero(s.drop_last(), now, interval);
    } else {
        lemma_sums_single(s.drop_last(), k, now, interval);
    }
}

/// A sliding-window counter: a window of `interval_ms` split into buckets of
/// `bucket_len_ms`, the bucket of a time picked by its slot and started afresh
/// once that slot has passed.
#[derive(Debug)]
pub struct CounterLeapArray {
    bucket_len_ms: u64,
    interval_ms: u64,
    buckets: Vec<MetricBucket>,
}

impl CounterLeapArray {
    pub closed spec fn buckets(&self) -> Seq<MetricBucket> {
        self.buckets@
    }

    pub closed spec fn bucket_len(&self) -> u64 {
        self.bucket_len_ms
    }

    pub closed spec fn interval(&self) -> u64 {
        self.interval_ms
    }

    pub open spec fn wf(&self) -> bool {
        &&& self.bucket_len() > 0
        &&& self.buckets().len() > 0
        &&& self.interval() == self.bucket_len() * self.buckets().len()
    }

    /// The index of the bucket that holds the time `now`.
    pub open spec fn slot_of(&self, now: u64) -> int {
        (now / self.bucket_len()) as int % self.buckets().len() as int
    }

    /// The start of the slot that holds the time `now`.
    pub open spec fn slot_start(&self, now: u64) -> u64 {
        (now - now % self.bucket_len()) as u64
    }

    /// The buckets after one request recorded at `now`.
    pub open spec fn after_request(&self, now: u64, is_error: bool, is_slow: bool) -> Seq<MetricBucket> {
        self.buckets().update(
            self.slot_of(now),
            recorded(self.buckets()[self.slot_of(now)], self.slot_start(now), is_error, is_slow),
        )
    }

    /// What an aggregate read at `now` sums, before the cap.
    pub open spec fn window_total(&self, now: u64) -> int {
        sum_total(self.buckets(), now, self.interval())
    }

    pub open spec fn window_errors(&self, now: u64) -> int {
        sum_errors(self.buckets(), now, self.interval())
    }

    pub open spec fn window_slow(&self, now: u64) -> int {
        sum_slow(self.buckets(), now, self.interval())
    }

    /// Tells whether every bucket is empty.
    pub open spec fn is_cleared(&self) -> bool {
        forall|i: int| 0 <= i < self.buckets().len() ==> #[trigger] self.buckets()[i] == empty_bucket()
    }

    /// A window of `interval_ms` split into `bucket_count` buckets, all empty.
    pub fn new(interval_ms: u32, bucket_count: u32) -> (r: CounterLeapArray)
        requires
            bucket_count > 0,
            interval_ms % bucket_count == 0,
            interval_ms / bucket_count > 0,
        ensures
            r.wf(),
            r.interval() == interval_ms,
            r.bucket_len() == interval_ms / bucket_count,
            r.buckets().len() == bucket_count,
            r.is_cleared(),
    {
        let mut buckets: Vec<MetricBucket> = Vec::new();
        let mut i: u32 = 0;
        while i < bucket_count
            invariant
                i <= bucket_count,
                buckets@.len() == i,
                forall|j: int| 0 <= j < i ==> #[trigger] buckets@[j] == empty_bucket(),
            decreases bucket_count - i,
        {
            buckets.push(MetricBucket { start_ms: 0, total: 0, errors: 0, slow: 0 });
            i = i + 1;
        }
        let len: u32 = interval_ms / bucket_count;
        proof {
            vstd::arithmetic::div_mod::lemma_fundamental_div_mod(interval_ms as int, bucket_count as int);
            assert(interval_ms as int == (len as int) * (bucket_count as int)) by (nonlinear_arith)
                requires
                    interval_ms as int == bucket_count * (interval_ms / bucket_count) + interval_ms % bucket_count,
                    interval_ms % bucket_count == 0,
                    len == interval_ms / bucket_count,
            ;
        }
        CounterLeapArray { bucket_len_ms: len as u64, interval_ms: interval_ms as u64, buckets }
    }

    /// Records one finished request at `now` in the bucket of its slot.
    pub fn add_request(&mut self, now: u64, is_error: bool, is_slow: bool)
        requires
            old(self).wf(),
        ensures
            final(self).wf(),
            final(self).interval() == old(self).interval(),
            final(self).bucket_len() == old(self).bucket_len(),
            final(self).buckets() == old(self).after_request(now, is_error, is_slow),
    {
        let len = self.buckets.len();
        let idx = ((now / self.bucket_len_ms) % (len as u64)) as usize;
        proof {
            vstd::arithmetic::div_mod::lemma_mod_decreases(now as nat, self.bucket_len_ms as nat);
        }
        let start = now - now % self.bucket_len_ms;
        let mut b = self.buckets[idx];
        if b.start_ms != start {
            b = MetricBucket { start_ms: start, total: 0, errors: 0, slow: 0 };
        }
        if b.total < u64::MAX {
            b.total = b.total + 1;
        }
        if is_error && b.errors < u64::MAX {
            b.errors = b.errors + 1;
        }
        if is_slow && b.slow < u64::MAX {
            b.slow = b.slow + 1;
        }
        self.buckets.set(idx, b);
    }

    /// Sums the buckets that are still in the window at `now`.
    pub fn summary(&self, now: u64) -> (r: MetricSummary)
        requires
            self.wf(),
        ensures
            r.total == cap(self.window_total(now)),
            r.errors == cap(self.window_errors(now)),
            r.slow == cap(self.window_slow(now)),
    {
        let mut total: u64 = 0;
        let mut errors: u64 = 0;
        let mut slow: u64 = 0;
        let mut i: usize = 0;
        while i < self.buckets.len()
            invariant
                i <= self.buckets@.len(),
                total == cap(sum_total(self.buckets@.subrange(0, i as int), now, self.interval_ms)),
                errors == cap(sum_errors(self.buckets@.subrange(0, i as int), now, self.interval_ms)),
                slow == cap(sum_slow(self.buckets@.subrange(0, i as int), now, self.interval_ms)),
            decreases self.buckets@.len() - i,
        {
            let b = self.buckets[i];
            proof {
                let s = self.buckets@.subrange(0, i as int + 1);
                assert(s.drop_last() =~= self.buckets@.subrange(0, i as int));
                lemma_sums_nonneg(s.drop_last(), now, self.interval_ms);
            }
            if b.start_ms <= now && now - b.start_ms < self.interval_ms {
                total = total.saturating_add(b.total);
                errors = errors.saturating_add(b.errors);
                slow = slow.saturating_add(b.slow);
            }
            i = i + 1;
        }
        proof {
            assert(self.buckets@.subrange(0, self.buckets@.len() as int) =~= self.buckets@);
        }
        MetricSummary { total, errors, slow }
    }

    /// Empties every bucket.
    pub fn reset(&mut self)
        requires
            old(self).wf(),
        ensures
            final(self).wf(),
            final(self).interval() == old(self).interval(),
            final(self).bucket_len() == old(self).bucket_len(),
            final(self).buckets().len() == old(self).buckets().len(),
            final(self).is_cleared(),
    {
        let mut i: usize = 0;
        while i < self.buckets.len()
            invariant
                self.wf(),
                self.interval() == old(self).interval(),
                self.bucket_len() == old(self).bucket_len(),
                self.buckets@.len() == old(self).buckets@.len(),
                i <= self.buckets@.len(),
                forall|j: int| 0 <= j < i ==> #[trigger] self.buckets@[j] == empty_bucket(),
            decreases self.buckets@.len() - i,
        {
            self.buckets.set(i, MetricBucket { start_ms: 0, total: 0, errors: 0, slow: 0 });
            i = i + 1;
        }
    }
}

/// After a reset every aggregate read sums to zero, whatever the time.
pub proof fn lemma_cleared_sums_zero(c: &CounterLeapArray, now: u64)
    requires
        c.is_cleared(),
    ensures
        c.window_total(now) == 0,
        c.window_errors(now) == 0,
        c.window_slow(now) == 0,
{
    lemma_sums_zero(c.buckets(), now, c.interval());
}

/// After a reset, the window that one more request at `now` leaves holds
/// that request alone.
pub proof fn lemma_cleared_then_one(c: &CounterLeapArray, now: u64, is_error: bool, is_slow: bool)
    requires
        c.wf(),
        c.is_cleared(),
    ensures
        sum_total(c.after_request(now, is_error, is_slow), now, c.interval()) == 1,
        sum_errors(c.after_request(now, is_error, is_slow), now, c.interval()) == if is_error { 1int } else { 0 },
        sum_slow(c.after_request(now, is_error, is_slow), now, c.interval()) == if is_slow { 1int } else { 0 },
{
    let s = c.after_request(now, is_error, is_slow);
    let k = c.slot_of(now);
    let bl = c.bucket_len();
    vstd::arithmetic::div_mod::lemma_mod_decreases(now as nat, bl as nat);
    assert(c.buckets()[k] == empty_bucket());
    assert(now % bl < bl);
    assert(bl * c.buckets().len() >= bl) by (nonlinear_arith)
        requires
            c.buckets().len() > 0,
            bl > 0,
    ;
    assert forall|i: int| 0 <= i < s.len() && i != k implies #[trigger] s[i] == empty_bucket() by {
        assert(c.buckets()[i] == empty_bucket());
    }
    lemma_sums_single(s, k, now, c.interval());
}

} // verus!
