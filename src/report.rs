//! Per-request samples and the running report that folds them.
//!
//! Times are nanoseconds: `elapsed` counts from the start of the test, and a
//! sample's `duration` runs from just before the request was sent to just
//! after its outcome was known.

use std::collections::HashMap;
use vstd::prelude::*;
use crate::percentile::{calculate_percentile, percentile_of};

verus! {

broadcast use vstd::std_specs::hash::group_hash_axioms;

/// HTTP status that counts as a success.
pub const STATUS_OK: u16 = 200;

/// The outcome of one completed request attempt.
#[derive(Clone, Copy, Debug, PartialEq, Eq)]
pub struct Sample {
    /// 1 when the response status was exactly 200, else 0.
    pub succeeded: i64,
    /// 1 on a transport error or a status other than 200, else 0.
    pub failed: i64,
    /// Always 1: one sample stands for one request.
    pub total_requests: i64,
    /// Wall-clock duration of the attempt, in nanoseconds.
    pub duration: u64,
    /// The response status; absent on a transport error.
    pub status_code: Option<u16>,
}

impl Sample {
    /// Exactly one of `succeeded` and `failed` is set, and the sample counts
    /// one request.
    pub open spec fn wf(&self) -> bool {
        &&& self.total_requests == 1
        &&& 0 <= self.succeeded <= 1
        &&& self.failed == 1 - self.succeeded
    }

    /// Whether a request with this outcome succeeded.
    pub open spec fn is_success(status_code: Option<u16>) -> bool {
        status_code == Some(STATUS_OK)
    }

    /// Builds the sample of a request that answered with `status_code`
    /// (`None` for a transport error) after `duration` nanoseconds.
    pub fn from_outcome(status_code: Option<u16>, duration: u64) -> (r: Sample)
        ensures
            r.wf(),
            r.succeeded == (if Self::is_success(status_code) { 1int } else { 0int }),
            r.duration == duration,
            r.status_code == status_code,
    {
        let ok = match status_code {
            Some(code) => code == STATUS_OK,
            None => false,
        };
        if ok {
            Sample { succeeded: 1, failed: 0, total_requests: 1, duration, status_code }
        } else {
            Sample { succeeded: 0, failed: 1, total_requests: 1, duration, status_code }
        }
    }
}

/// The counters of a report, as mathematical values.
pub struct Counters {
    pub succeeded: int,
    pub failed: int,
    pub total: int,
    /// How many responses carried each status code; codes never seen are absent.
    pub codes: Map<u16, nat>,
}

/// The counters of an empty report.
pub open spec fn zero_counters() -> Counters {
    Counters { succeeded: 0, failed: 0, total: 0, codes: Map::empty() }
}

/// The counters after one more sample.
pub open spec fn tally_step(c: Counters, s: Sample) -> Counters {
    Counters {
        succeeded: c.succeeded + s.succeeded,
        failed: c.failed + s.failed,
        total: c.total + 1,
        codes: match s.status_code {
            Some(k) => c.codes.insert(
                k,
                if c.codes.contains_key(k) { c.codes[k] + 1 } else { 1 },
            ),
            None => c.codes,
        },
    }
}

/// The counters after folding the samples of `s` into an empty report, in order.
pub open spec fn tally_of(s: Seq<Sample>) -> Counters
    decreases s.len(),
{
    if s.len() == 0 {
        zero_counters()
    } else {
        tally_step(tally_of(s.drop_last()), s.last())
    }
}

/// The aggregator's running state.
pub struct Report {
    pub succeeded: i64,
    pub failed: i64,
    pub total_requests: i64,
    /// Nanoseconds from the start of the test to the latest sample.
    pub elapsed: u64,
    /// Mean nanoseconds per request: `elapsed / max(total_requests, 1)`.
    pub transaction_rate: u64,
    /// The positive durations received, in arrival order.
    pub latency_samples: Vec<u64>,
    /// `(elapsed, p99)` after each sample, in arrival order.
    pub latency_series: Vec<(u64, u64)>,
    /// How many responses carried each status code.
    pub status_code_counts: HashMap<u16, u64>,
}

impl Report {
    /// The report's counters, as mathematical values.
    pub open spec fn counters(&self) -> Counters {
        Counters {
            succeeded: self.succeeded as int,
            failed: self.failed as int,
            total: self.total_requests as int,
            codes: self.status_code_counts@.map_values(|v: u64| v as nat),
        }
    }

    /// The report's invariant.
    pub open spec fn wf(&self) -> bool {
        &&& 0 <= self.succeeded
        &&& 0 <= self.failed
        &&& self.succeeded + self.failed == self.total_requests
        &&& self.latency_samples@.len() <= self.total_requests
        &&& forall|i: int|
            0 <= i < self.latency_samples@.len() ==> #[trigger] self.latency_samples@[i] > 0
        &&& forall|i: int, j: int|
            0 <= i <= j < self.latency_series@.len() ==> (#[trigger] self.latency_series@[i]).0
                <= (#[trigger] self.latency_series@[j]).0
        &&& forall|i: int|
            0 <= i < self.latency_series@.len() ==> (#[trigger] self.latency_series@[i]).0
                <= self.elapsed
        &&& forall|k: u16|
            #[trigger] self.status_code_counts@.contains_key(k)
                ==> self.status_code_counts@[k] <= self.total_requests
    }

    /// An empty report.
    pub fn new() -> (r: Report)
        ensures
            r.wf(),
            r.counters() == zero_counters(),
            r.elapsed == 0,
            r.transaction_rate == 0,
            r.latency_samples@.len() == 0,
            r.latency_series@.len() == 0,
    {
        let r = Report {
            succeeded: 0,
            failed: 0,
            total_requests: 0,
            elapsed: 0,
            transaction_rate: 0,
            latency_samples: Vec::new(),
            latency_series: Vec::new(),
            status_code_counts: HashMap::new(),
        };
        assert(r.counters().codes =~= Map::empty());
        r
    }

    /// Adds the given counts to the counters and moves the clock to `el`.
    pub fn add_report(&mut self, succeed_count: i64, failed_count: i64, total_req_count: i64, el: u64)
        requires
            old(self).wf(),
            0 <= succeed_count,
            0 <= failed_count,
            succeed_count + failed_count == total_req_count,
            old(self).total_requests + total_req_count <= i64::MAX,
            old(self).elapsed <= el,
        ensures
            final(self).wf(),
            final(self).succeeded == old(self).succeeded + succeed_count,
            final(self).failed == old(self).failed + failed_count,
            final(self).total_requests == old(self).total_requests + total_req_count,
            final(self).elapsed == el,
            final(self).transaction_rate == old(self).transaction_rate,
            final(self).latency_samples@ == old(self).latency_samples@,
            final(self).latency_series@ == old(self).latency_series@,
            final(self).status_code_counts@ == old(self).status_code_counts@,
    {
        self.succeeded = self.succeeded + succeed_count;
        self.failed = self.failed + failed_count;
        self.total_requests = self.total_requests + total_req_count;
        self.elapsed = el;
    }
    /// Folds one sample into the report at `elapsed` nanoseconds from the
    /// start: bumps the counters, keeps a positive duration, counts the status
    /// code, refreshes the transaction rate, and appends `(elapsed, p99)` to
    /// the latency series. Returns the 99th, 95th and 90th percentiles of all
    /// durations kept so far.
    pub fn record_sample(&mut self, sample: &Sample, elapsed: u64) -> (r: (u64, u64, u64))
        requires
            old(self).wf(),
            sample.wf(),
            old(self).total_requests < i64::MAX,
            old(self).elapsed <= elapsed,
        ensures
            final(self).wf(),
            final(self).counters() == tally_step(old(self).counters(), *sample),
            final(self).succeeded + final(self).failed == final(self).total_requests,
            final(self).latency_samples@ == (if sample.duration > 0 {
                old(self).latency_samples@.push(sample.duration)
            } else {
                old(self).latency_samples@
            }),
            forall|i: int|
                0 <= i < final(self).latency_samples@.len()
                    ==> #[trigger] final(self).latency_samples@[i] > 0,
            final(self).elapsed == elapsed,
            final(self).transaction_rate == elapsed / (final(self).total_requests as u64),
            r == (
                percentile_of(final(self).latency_samples@, 99),
                percentile_of(final(self).latency_samples@, 95),
                percentile_of(final(self).latency_samples@, 90),
            ),
            final(self).latency_series@ == old(self).latency_series@.push((elapsed, r.0)),
    {
        let ghost before = self.counters();
        self.add_report(sample.succeeded, sample.failed, sample.total_requests, elapsed);
        if sample.duration > 0 {
            self.latency_samples.push(sample.duration);
        }
        match sample.status_code {
            Some(code) => {
                let seen: u64 = match self.status_code_counts.get(&code) {
                    Some(n) => *n,
                    None => 0,
                };
                self.status_code_counts.insert(code, seen + 1);
            },
            None => {},
        }
        proof {
            let after = self.counters();
            let expected = tally_step(before, *sample);
            assert(after.codes =~= expected.codes);
        }
        self.transaction_rate = elapsed / (self.total_requests as u64);
        let mut durations = self.latency_samples.clone();
        assert(durations@ == self.latency_samples@);
        let (p99, p95, p90) = calculate_percentile(&mut durations);
        self.latency_series.push((elapsed, p99));
        (p99, p95, p90)
    }
}

/// The sum of `f` over the samples of `s`.
pub open spec fn total_of(s: Seq<Sample>, f: spec_fn(Sample) -> int) -> int
    decreases s.len(),
{
    if s.len() == 0 {
        0
    } else {
        total_of(s.drop_last(), f) + f(s.last())
    }
}

/// One for a sample that carries status `k`, zero otherwise.
pub open spec fn has_code(k: u16) -> spec_fn(Sample) -> int {
    |x: Sample| if x.status_code == Some(k) { 1int } else { 0int }
}

proof fn lemma_total_of_remove(s: Seq<Sample>, f: spec_fn(Sample) -> int, i: int)
    requires
        0 <= i < s.len(),
    ensures
        total_of(s, f) == total_of(s.remove(i), f) + f(s[i]),
    decreases s.len(),
{
    if i == s.len() - 1 {
        assert(s.remove(i) =~= s.drop_last());
    } else {
        lemma_total_of_remove(s.drop_last(), f, i);
        assert(s.remove(i).drop_last() =~= s.drop_last().remove(i));
        assert(s.remove(i).last() == s.last());
    }
}

proof fn lemma_total_of_permutation(a: Seq<Sample>, b: Seq<Sample>, f: spec_fn(Sample) -> int)
    requires
        a.to_multiset() == b.to_multiset(),
    ensures
        total_of(a, f) == total_of(b, f),
    decreases a.len(),
{
    broadcast use vstd::seq_lib::group_to_multiset_ensures;
    broadcast use vstd::multiset::group_multiset_axioms;

    if a.len() == 0 {
        vstd::seq_lib::to_multiset_len(a);
        vstd::seq_lib::to_multiset_len(b);
    } else {
        let x = a.last();
        let rest = a.drop_last();
        assert(rest.push(x) =~= a);
        assert(a.to_multiset() == rest.to_multiset().insert(x));
        assert(b.to_multiset().count(x) > 0);
        assert(b.contains(x));
        let j = choose|j: int| 0 <= j < b.len() && b[j] == x;
        assert(b.remove(j).to_multiset() =~= rest.to_multiset());
        lemma_total_of_permutation(rest, b.remove(j), f);
        lemma_total_of_remove(b, f, j);
    }
}

/// The counters of a fold, stated as sums over the samples.
proof fn lemma_tally_as_totals(s: Seq<Sample>)
    ensures
        tally_of(s).succeeded == total_of(s, |x: Sample| x.succeeded as int),
        tally_of(s).failed == total_of(s, |x: Sample| x.failed as int),
        tally_of(s).total == s.len(),
        forall|k: u16|
            #[trigger] tally_of(s).codes.contains_key(k) <==> total_of(s, has_code(k)) > 0,
        forall|k: u16| #[trigger] tally_of(s).codes.contains_key(k)
            ==> tally_of(s).codes[k] == total_of(s, has_code(k)),
    decreases s.len(),
{
    if s.len() > 0 {
        lemma_tally_as_totals(s.drop_last());
        assert forall|k: u16| #[trigger] total_of(s.drop_last(), has_code(k)) >= 0 by {
            lemma_total_of_nonneg(s.drop_last(), k);
        }
    }
}

proof fn lemma_total_of_nonneg(s: Seq<Sample>, k: u16)
    ensures
        total_of(s, has_code(k)) >= 0,
    decreases s.len(),
{
    if s.len() > 0 {
        lemma_total_of_nonneg(s.drop_last(), k);
    }
}

/// Folding samples into a report gives counters that depend only on which
/// samples arrived, not on the order in which they arrived.
pub proof fn lemma_fold_order_free(a: Seq<Sample>, b: Seq<Sample>)
    requires
        a.to_multiset() == b.to_multiset(),
    ensures
        tally_of(a) == tally_of(b),
{
    lemma_tally_as_totals(a);
    lemma_tally_as_totals(b);
    lemma_total_of_permutation(a, b, |x: Sample| x.succeeded as int);
    lemma_total_of_permutation(a, b, |x: Sample| x.failed as int);
    vstd::seq_lib::to_multiset_len(a);
    vstd::seq_lib::to_multiset_len(b);
    let (ca, cb) = (tally_of(a).codes, tally_of(b).codes);
    assert forall|k: u16| #[trigger] ca.contains_key(k) <==> cb.contains_key(k) by {
        lemma_total_of_permutation(a, b, has_code(k));
    }
    assert forall|k: u16| #[trigger] ca.contains_key(k) implies ca[k] == cb[k] by {
        lemma_total_of_permutation(a, b, has_code(k));
    }
    assert(ca =~= cb);
}

/// However many valid samples are folded, every request is counted once, as
/// a success or as a failure.
pub proof fn lemma_tally_balanced(s: Seq<Sample>)
    requires
        forall|i: int| 0 <= i < s.len() ==> (#[trigger] s[i]).wf(),
    ensures
        tally_of(s).succeeded + tally_of(s).failed == tally_of(s).total,
        tally_of(s).total == s.len(),
    decreases s.len(),
{
    if s.len() > 0 {
        lemma_tally_balanced(s.drop_last());
        assert(s.last() == s[s.len() - 1]);
    }
}

} // verus!
