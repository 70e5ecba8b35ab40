use vstd::prelude::*;
use crate::state::BreakerStrategy;

verus! {

/// A non-negative rational `numer / denom`, with `denom > 0` in a valid value.
/// It carries what triggered an open transition (an error count, or a ratio)
/// to the listeners.
#[derive(Debug, Copy, Clone, PartialEq, Eq, Structural)]
pub struct Snapshot {
    pub numer: u64,
    pub denom: u64,
}

impl Snapshot {
    /// The snapshot handed over when a half-open probe fails or goes unused: one.
    pub fn one() -> (r: Snapshot)
        ensures
            r.numer == 1 && r.denom == 1,
    {
        Snapshot { numer: 1, denom: 1 }
    }
}

/// The circuit breaking rule of one resource. It is immutable once built: a
/// change of configuration builds a new rule and a new breaker.
///
/// The threshold is the rational `threshold_numer / threshold_denom`: a number
/// of errors for `ErrorCount`, a ratio for the two ratio strategies.
#[derive(Debug, Clone)]
pub struct Rule {
    pub resource: String,
    pub strategy: BreakerStrategy,
    /// How long the breaker stays open before it admits a probe.
    pub retry_timeout_ms: u32,
    /// The length of the statistic window.
    pub stat_interval_ms: u32,
    /// How many buckets the window is split into.
    pub stat_bucket_count: u32,
    pub threshold_numer: u64,
    pub threshold_denom: u64,
    /// The fewest requests in the window on which the breaker may open.
    pub min_request_amount: u64,
    /// A request slower than this is slow (slow-request strategy).
    pub max_allowed_rt_ms: u64,
}

impl Rule {
    /// A rule is valid when its threshold has a positive denominator and its
    /// window splits into whole buckets of positive length.
    pub open spec fn wf(&self) -> bool {
        &&& self.threshold_denom > 0
        &&& self.stat_bucket_count > 0
        &&& self.stat_interval_ms % self.stat_bucket_count == 0
        &&& self.stat_interval_ms / self.stat_bucket_count > 0
    }

    /// Tells whether the rule is valid.
    pub fn is_valid(&self) -> (r: bool)
        ensures
            r == self.wf(),
    {
        self.threshold_denom > 0 && self.stat_bucket_count > 0
            && self.stat_interval_ms % self.stat_bucket_count == 0
            && self.stat_interval_ms / self.stat_bucket_count > 0
    }
}

} // verus!
