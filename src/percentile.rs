//! Latency percentiles over the recorded request durations (nanoseconds).
//!
//! Zero durations carry no measurement and are dropped. The rest are sorted
//! ascending and each percentile `p` is read by the nearest-rank rule: the
//! element of 1-based rank `ceil(p * n / 100)`. An empty history gives zero.

use vstd::prelude::*;
use vstd::relations::{sorted_by, total_ordering};
use vstd::seq_lib::lemma_sorted_unique;

verus! {

/// Ascending order on durations.
pub open spec fn ascending() -> spec_fn(u64, u64) -> bool {
    |a: u64, b: u64| a <= b
}

/// A duration that holds a measurement.
pub open spec fn is_measured() -> spec_fn(u64) -> bool {
    |x: u64| x != 0
}

/// The measured durations of `s`, in ascending order.
pub open spec fn measured_sorted(s: Seq<u64>) -> Seq<u64> {
    s.filter(is_measured()).sort_by(ascending())
}

/// 0-based index of the nearest-rank `p`-th percentile among `n` elements.
pub open spec fn rank_index(n: int, p: int) -> int {
    (p * n + 99) / 100 - 1
}

/// Nearest-rank `p`-th percentile of an ascending sequence; zero when empty.
pub open spec fn nearest_rank(d: Seq<u64>, p: int) -> u64 {
    if d.len() == 0 {
        0
    } else {
        d[rank_index(d.len() as int, p)]
    }
}

/// The `p`-th percentile of the measured durations in `s`.
pub open spec fn percentile_of(s: Seq<u64>, p: int) -> u64 {
    nearest_rank(measured_sorted(s), p)
}

proof fn lemma_ascending_is_total()
    ensures
        total_ordering(ascending()),
{
}

proof fn lemma_rank_index_bounds(n: int, p: int)
    requires
        1 <= n,
        1 <= p <= 100,
    ensures
        0 <= rank_index(n, p) < n,
{
    assert(p * n + 99 >= 100) by (nonlinear_arith)
        requires
            1 <= n,
            1 <= p,
    ;
    assert(p * n + 99 <= 100 * n + 99) by (nonlinear_arith)
        requires
            1 <= n,
            p <= 100,
    ;
}

proof fn lemma_rank_index_monotone(n: int, p: int, q: int)
    requires
        1 <= n,
        1 <= p <= q <= 100,
    ensures
        rank_index(n, p) <= rank_index(n, q),
{
    assert(p * n <= q * n) by (nonlinear_arith)
        requires
            1 <= n,
            p <= q,
    ;
}

/// Relies on slice::sort_unstable: afterwards the vector is in ascending
/// order and holds the same elements.
#[verifier::external_body]
fn sort_ascending(v: &mut Vec<u64>)
    ensures
        sorted_by(final(v)@, ascending()),
        final(v)@.to_multiset() == old(v)@.to_multiset(),
{
    v.sort_unstable();
}

/// Reads the nearest-rank percentile `p` of an ascending, non-empty vector.
fn nearest_rank_of(d: &Vec<u64>, p: u64) -> (r: u64)
    requires
        d@.len() >= 1,
        1 <= p <= 100,
    ensures
        r == nearest_rank(d@, p as int),
{
    proof {
        lemma_rank_index_bounds(d@.len() as int, p as int);
    }
    let k: u128 = (p as u128 * d.len() as u128 + 99) / 100;
    d[(k - 1) as usize]
}

/// Drops the zero durations from `data`, sorts the rest ascending, and
/// returns the 99th, 95th and 90th percentiles of what remains.
pub fn calculate_percentile(data: &mut Vec<u64>) -> (r: (u64, u64, u64))
    ensures
        final(data)@ == measured_sorted(old(data)@),
        r == (
            percentile_of(old(data)@, 99),
            percentile_of(old(data)@, 95),
            percentile_of(old(data)@, 90),
        ),
{
    let ghost original = data@;
    let mut kept: Vec<u64> = Vec::new();
    let mut i: usize = 0;
    while i < data.len()
        invariant
            data@ == original,
            0 <= i <= original.len(),
            kept@ == original.take(i as int).filter(is_measured()),
        decreases original.len() - i,
    {
        proof {
            assert(original.take(i + 1) == original.take(i as int).push(original[i as int]));
            original.take(i as int).lemma_filter_push(original[i as int], is_measured());
        }
        if data[i] != 0 {
            kept.push(data[i]);
        }
        i += 1;
    }
    proof {
        assert(original.take(original.len() as int) == original);
    }
    sort_ascending(&mut kept);
    proof {
        lemma_ascending_is_total();
        let filtered = original.filter(is_measured());
        filtered.lemma_sort_by_ensures(ascending());
        lemma_sorted_unique(kept@, measured_sorted(original), ascending());
    }
    *data = kept;
    if data.len() == 0 {
        (0, 0, 0)
    } else {
        (nearest_rank_of(data, 99), nearest_rank_of(data, 95), nearest_rank_of(data, 90))
    }
}

/// For any history of durations, the 90th percentile is at most the 95th,
/// which is at most the 99th.
pub proof fn lemma_percentiles_ordered(s: Seq<u64>)
    ensures
        percentile_of(s, 90) <= percentile_of(s, 95),
        percentile_of(s, 95) <= percentile_of(s, 99),
{
    lemma_ascending_is_total();
    let d = measured_sorted(s);
    s.filter(is_measured()).lemma_sort_by_ensures(ascending());
    if d.len() > 0 {
        let n = d.len() as int;
        lemma_rank_index_bounds(n, 90);
        lemma_rank_index_bounds(n, 95);
        lemma_rank_index_bounds(n, 99);
        lemma_rank_index_monotone(n, 90, 95);
        lemma_rank_index_monotone(n, 95, 99);
        let (i90, i95, i99) = (rank_index(n, 90), rank_index(n, 95), rank_index(n, 99));
        if i90 < i95 {
            assert((ascending())(d[i90], d[i95]));
        }
        if i95 < i99 {
            assert((ascending())(d[i95], d[i99]));
        }
    }
}

/// With no durations recorded, every percentile is zero.
pub proof fn lemma_percentiles_of_empty(p: int)
    ensures
        percentile_of(Seq::<u64>::empty(), p) == 0,
{
    lemma_ascending_is_total();
    let f = Seq::<u64>::empty().filter(is_measured());
    assert(f =~= Seq::<u64>::empty()) by {
        f.lemma_filter_len(is_measured());
    }
    f.lemma_sort_by_ensures(ascending());
    assert(measured_sorted(Seq::<u64>::empty()).len() == 0) by {
        vstd::seq_lib::to_multiset_len(f);
        vstd::seq_lib::to_multiset_len(measured_sorted(Seq::<u64>::empty()));
    }
}

/// Filtering a constant sequence keeps all of it, or nothing when the
/// constant is zero.
proof fn lemma_filter_of_constant(s: Seq<u64>, v: u64)
    requires
        forall|i: int| 0 <= i < s.len() ==> s[i] == v,
    ensures
        s.filter(is_measured()) == (if v == 0 { Seq::<u64>::empty() } else { s }),
    decreases s.len(),
{
    if s.len() == 0 {
        s.lemma_filter_len(is_measured());
        assert(s.filter(is_measured()) =~= Seq::<u64>::empty());
        assert(s =~= Seq::<u64>::empty());
    } else {
        let init = s.drop_last();
        lemma_filter_of_constant(init, v);
        init.lemma_filter_push(s.last(), is_measured());
        assert(init.push(s.last()) =~= s);
        if v == 0 {
            assert(s.filter(is_measured()) == init.filter(is_measured()));
        } else {
            assert(s.filter(is_measured()) == init.push(s.last()));
        }
    }
}

/// When every recorded duration equals `v`, every percentile is `v`.
pub proof fn lemma_percentiles_of_constant(s: Seq<u64>, v: u64, p: int)
    requires
        s.len() >= 1,
        forall|i: int| 0 <= i < s.len() ==> s[i] == v,
        1 <= p <= 100,
    ensures
        percentile_of(s, p) == v,
{
    lemma_ascending_is_total();
    let f = s.filter(is_measured());
    let d = measured_sorted(s);
    f.lemma_sort_by_ensures(ascending());
    vstd::seq_lib::to_multiset_len(f);
    vstd::seq_lib::to_multiset_len(d);
    lemma_filter_of_constant(s, v);
    if v != 0 {
        let n = d.len() as int;
        lemma_rank_index_bounds(n, p);
        let x = d[rank_index(n, p)];
        assert(d.contains(x));
        assert(s.contains(x));
    }
}

} // verus!
