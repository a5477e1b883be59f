//! Latency sample collection and nearest-rank percentile statistics.
//!
//! The tracker keeps every recorded sample and sorts them when a snapshot is
//! taken. Compared with a bucketed histogram this trades O(1) amortized
//! recording plus O(buckets) snapshots for O(1) recording plus an
//! O(n log n) snapshot, and in return the reported percentiles are exact
//! order statistics rather than bucket upper bounds — acceptable here since
//! snapshots are taken once per run on modest sample counts.

use vstd::prelude::*;
use vstd::relations::sorted_by;
use vstd::relations::total_ordering;
use vstd::seq_lib::lemma_sorted_unique;
use vstd::seq_lib::lemma_multiset_commutative;
use vstd::seq_lib::lemma_seq_contains;
use vstd::arithmetic::div_mod::lemma_div_is_ordered;
use vstd::arithmetic::div_mod::lemma_div_multiples_vanish_fancy;
use vstd::arithmetic::mul::lemma_mul_inequality;
use vstd::multiset::Multiset;

verus! {

/// The order on latency samples, in microseconds.
pub open spec fn latency_leq() -> spec_fn(u64, u64) -> bool {
    |x: u64, y: u64| x <= y
}

proof fn lemma_latency_leq_total()
    ensures
        total_ordering(latency_leq()),
{
}

/// The recorded samples in ascending order.
pub open spec fn sorted_samples(s: Seq<u64>) -> Seq<u64> {
    s.sort_by(latency_leq())
}

/// Nearest rank of the `permille/1000` quantile among `n` samples:
/// `ceil(permille * n / 1000)`.
pub open spec fn nearest_rank(permille: int, n: int) -> int {
    (permille * n + 999) / 1000
}

/// The nearest-rank percentile: the value at sorted rank
/// `ceil(permille * n / 1000)` among the `n` recorded samples.
pub open spec fn percentile_of(s: Seq<u64>, permille: int) -> u64
    recommends
        1 <= permille <= 1000,
        s.len() > 0,
{
    sorted_samples(s)[nearest_rank(permille, s.len() as int) - 1]
}

/// The nearest rank of a quantile between 0.1% and 100% is itself between
/// 1 and the sample count.
pub proof fn lemma_nearest_rank_bounds(permille: int, n: int)
    requires
        1 <= permille <= 1000,
        n >= 1,
    ensures
        1 <= nearest_rank(permille, n) <= n,
{
    lemma_mul_inequality(1, permille, n);
    lemma_mul_inequality(permille, 1000, n);
    assert(1 * n == n && permille * n == n * permille && 1000 * n == n * 1000)
        by (nonlinear_arith);
    lemma_div_is_ordered(1 * n + 999, permille * n + 999, 1000);
    lemma_div_is_ordered(permille * n + 999, 1000 * n + 999, 1000);
    lemma_div_multiples_vanish_fancy(n, 999, 1000);
    assert((1000 * n + 999) / 1000 == n);
    lemma_div_is_ordered(1000, 1 * n + 999, 1000);
    assert(1000int / 1000 == 1);
}

/// Statistics law: the nearest-rank percentile is non-decreasing in the
/// target quantile, so for any non-empty sample set
/// p50 &le; p95 &le; p99 &le; p99.9 &le; max.
pub proof fn lemma_percentile_monotone(s: Seq<u64>, p1: int, p2: int)
    requires
        s.len() > 0,
        1 <= p1 <= p2 <= 1000,
    ensures
        percentile_of(s, p1) <= percentile_of(s, p2),
{
    let n = s.len() as int;
    let t = sorted_samples(s);
    lemma_latency_leq_total();
    s.lemma_sort_by_ensures(latency_leq());
    assert(t.len() == n) by {
        broadcast use vstd::seq_lib::group_to_multiset_ensures;

        assert(s.to_multiset().len() == t.to_multiset().len());
    }
    lemma_nearest_rank_bounds(p1, n);
    lemma_nearest_rank_bounds(p2, n);
    lemma_mul_inequality(p1, p2, n);
    assert(p1 * n == n * p1 && p2 * n == n * p2) by (nonlinear_arith);
    lemma_div_is_ordered(p1 * n + 999, p2 * n + 999, 1000);
    let r1 = nearest_rank(p1, n);
    let r2 = nearest_rank(p2, n);
    if r1 < r2 {
        assert(latency_leq()(t[r1 - 1], t[r2 - 1]));
    }
}

/// Percentile ordering invariant: for any non-empty sample set,
/// p50 &le; p95 &le; p99 &le; p99.9 &le; max.
pub proof fn lemma_percentile_ordering(s: Seq<u64>)
    requires
        s.len() > 0,
    ensures
        percentile_of(s, 500) <= percentile_of(s, 950) <= percentile_of(s, 990) <= percentile_of(
            s,
            999,
        ) <= percentile_of(s, 1000),
{
    lemma_percentile_monotone(s, 500, 950);
    lemma_percentile_monotone(s, 950, 990);
    lemma_percentile_monotone(s, 990, 999);
    lemma_percentile_monotone(s, 999, 1000);
}

/// Every recorded sample is at most the nearest-rank value of the 100%
/// quantile, which is the largest sample.
pub proof fn lemma_percentile_max_dominates(s: Seq<u64>)
    requires
        s.len() > 0,
    ensures
        forall|i: int| 0 <= i < s.len() ==> s[i] <= percentile_of(s, 1000),
{
    let n = s.len() as int;
    let t = sorted_samples(s);
    lemma_latency_leq_total();
    s.lemma_sort_by_ensures(latency_leq());
    broadcast use vstd::seq_lib::group_to_multiset_ensures;

    assert(t.len() == n) by {
        assert(s.to_multiset().len() == t.to_multiset().len());
    }
    lemma_div_multiples_vanish_fancy(n, 999, 1000);
    assert(nearest_rank(1000, n) == n);
    assert forall|i: int| 0 <= i < s.len() implies s[i] <= percentile_of(s, 1000) by {
        assert(s.to_multiset().count(s[i]) > 0) by {
            assert(s.contains(s[i]));
        }
        assert(t.contains(s[i]));
        lemma_seq_contains(t, s[i]);
        let k = choose|k: int| 0 <= k < t.len() && t[k] == s[i];
        if k < n - 1 {
            assert(latency_leq()(t[k], t[n - 1]));
        }
    }
}

/// Immutable snapshot of the latency distribution, in microseconds.
#[derive(Clone, Copy, Debug, PartialEq, Eq, Structural)]
pub struct LatencyStatistics {
    pub p50: u64,
    pub p95: u64,
    pub p99: u64,
    pub p999: u64,
    pub max: u64,
    pub sample_count: usize,
}

impl LatencyStatistics {
    /// The percentile-ordering invariant every snapshot satisfies.
    pub open spec fn wf(self) -> bool {
        self.sample_count > 0 ==> self.p50 <= self.p95 <= self.p99 <= self.p999 <= self.max
    }

    /// The all-zero snapshot reported before any sample is recorded.
    pub fn empty() -> (r: LatencyStatistics)
        ensures
            r == (LatencyStatistics {
                p50: 0u64,
                p95: 0u64,
                p99: 0u64,
                p999: 0u64,
                max: 0u64,
                sample_count: 0usize,
            }),
    {
        LatencyStatistics { p50: 0, p95: 0, p99: 0, p999: 0, max: 0, sample_count: 0 }
    }
}

/// Inserting `x` at the first position whose element exceeds it keeps a
/// sequence sorted.
proof fn lemma_sorted_insert(s: Seq<u64>, j: int, x: u64)
    requires
        sorted_by(s, latency_leq()),
        0 <= j <= s.len(),
        forall|k: int| 0 <= k < j ==> s[k] <= x,
        j < s.len() ==> x < s[j],
    ensures
        sorted_by(s.insert(j, x), latency_leq()),
{
    let t = s.insert(j, x);
    s.insert_ensures(j, x);
    assert forall|p: int, q: int| 0 <= p < q < t.len() implies #[trigger] latency_leq()(
        t[p],
        t[q],
    ) by {
        if q < j {
            assert(latency_leq()(s[p], s[q]));
        } else if p > j {
            assert(latency_leq()(s[p - 1], s[q - 1]));
        } else if p < j && q == j {
            assert(t[p] == s[p] && s[p] <= x);
        } else {
            if p < j {
                assert(t[p] == s[p] && s[p] <= x);
            }
            if q > j {
                assert(t[q] == s[q - 1]);
                if q - 1 > j {
                    assert(latency_leq()(s[j], s[q - 1]));
                }
            }
        }
    }
}

/// Inserts `a` anywhere in a sequence: one more copy of `a`, nothing else
/// changes, as multisets.
proof fn lemma_insert_to_multiset(s: Seq<u64>, i: int, a: u64)
    requires
        0 <= i <= s.len(),
    ensures
        s.insert(i, a).to_multiset() == s.to_multiset().insert(a),
{
    broadcast use vstd::seq_lib::group_to_multiset_ensures;
    broadcast use vstd::multiset::group_multiset_axioms;

    let head = s.subrange(0, i);
    let tail = s.subrange(i, s.len() as int);
    assert(s.insert(i, a) == head.push(a) + tail);
    lemma_multiset_commutative(head.push(a), tail);
    assert(head.push(a).to_multiset() =~= head.to_multiset().insert(a));
    lemma_multiset_commutative(head, tail);
    assert(head + tail =~= s);
    assert(s.insert(i, a).to_multiset() =~= s.to_multiset().insert(a));
}

/// Sorts the samples ascending; the result is the unique sorted permutation
/// of the input.
pub fn sort_samples(v: &Vec<u64>) -> (r: Vec<u64>)
    ensures
        r@ == sorted_samples(v@),
        sorted_by(r@, latency_leq()),
        r@.to_multiset() == v@.to_multiset(),
        r@.len() == v@.len(),
{
    let mut out: Vec<u64> = Vec::new();
    let mut i: usize = 0;
    proof {
        assert(out@ =~= v@.subrange(0, 0));
    }
    while i < v.len()
        invariant
            i <= v.len(),
            sorted_by(out@, latency_leq()),
            out@.to_multiset() == v@.subrange(0, i as int).to_multiset(),
            out@.len() == i,
        decreases v.len() - i,
    {
        let x = v[i];
        let mut j: usize = 0;
        while j < out.len() && out[j] <= x
            invariant
                j <= out.len(),
                forall|k: int| 0 <= k < j ==> out@[k] <= x,
            decreases out.len() - j,
        {
            j = j + 1;
        }
        proof {
            let s = out@;
            s.insert_ensures(j as int, x);
            lemma_sorted_insert(s, j as int, x);
            lemma_insert_to_multiset(s, j as int, x);
            broadcast use vstd::seq_lib::group_to_multiset_ensures;

            assert(v@.subrange(0, i as int + 1) =~= v@.subrange(0, i as int).push(x));
            assert(v@.subrange(0, i as int).push(x).to_multiset()
                =~= v@.subrange(0, i as int).to_multiset().insert(x));
        }
        out.insert(j, x);
        i = i + 1;
    }
    proof {
        assert(v@.subrange(0, v@.len() as int) =~= v@);
        lemma_latency_leq_total();
        v@.lemma_sort_by_ensures(latency_leq());
        lemma_sorted_unique(out@, sorted_samples(v@), latency_leq());
    }
    out
}

/// The value at the nearest rank of the `permille/1000` quantile in an
/// already-sorted sample vector.
pub fn percentile_from_sorted(sorted: &Vec<u64>, permille: u64) -> (r: u64)
    requires
        sorted_by(sorted@, latency_leq()),
        sorted@.len() > 0,
        1 <= permille <= 1000,
    ensures
        r == sorted@[nearest_rank(permille as int, sorted@.len() as int) - 1],
{
    let n = sorted.len();
    proof {
        lemma_mul_inequality(permille as int, 1000, n as int);
        assert(1000 * (n as int) <= 1000 * 0xFFFF_FFFF_FFFF_FFFFu64) by (nonlinear_arith)
            requires
                n <= 0xFFFF_FFFF_FFFF_FFFFu64,
        ;
        lemma_nearest_rank_bounds(permille as int, n as int);
    }
    let rank_wide: u128 = (permille as u128 * n as u128 + 999) / 1000;
    let rank = rank_wide as usize;
    sorted[rank - 1]
}

/// Collects latency samples and produces percentile snapshots.
///
/// Worker tasks append samples (singly or as whole per-worker buffers);
/// a snapshot reports the nearest-rank percentiles of everything recorded
/// so far. No sample is ever dropped or duplicated: the tracker's state is
/// exactly the sequence of recorded samples.
pub struct LatencyTracker {
    samples: Vec<u64>,
}

impl View for LatencyTracker {
    type V = Seq<u64>;

    closed spec fn view(&self) -> Seq<u64> {
        self.samples@
    }
}

impl LatencyTracker {
    /// A tracker with no samples recorded.
    pub fn new() -> (r: LatencyTracker)
        ensures
            r@ == Seq::<u64>::empty(),
    {
        LatencyTracker { samples: Vec::new() }
    }

    /// Records one latency sample, in microseconds.
    pub fn record(&mut self, sample_us: u64)
        ensures
            final(self)@ == old(self)@.push(sample_us),
    {
        self.samples.push(sample_us);
    }

    /// Appends a whole per-worker sample buffer.
    pub fn record_batch(&mut self, batch: &Vec<u64>)
        ensures
            final(self)@ == old(self)@ + batch@,
    {
        let mut k: usize = 0;
        proof {
            assert(self@ + batch@.subrange(0, 0) =~= self@);
        }
        while k < batch.len()
            invariant
                k <= batch.len(),
                self@ == old(self)@ + batch@.subrange(0, k as int),
            decreases batch.len() - k,
        {
            let s = batch[k];
            self.samples.push(s);
            proof {
                assert(old(self)@ + batch@.subrange(0, k as int + 1)
                    =~= (old(self)@ + batch@.subrange(0, k as int)).push(s));
            }
            k = k + 1;
        }
        proof {
            assert(batch@.subrange(0, batch@.len() as int) =~= batch@);
        }
    }

    /// The number of samples recorded so far.
    pub fn sample_count(&self) -> (r: usize)
        ensures
            r == self@.len(),
    {
        self.samples.len()
    }

    /// An immutable statistics snapshot of everything recorded so far:
    /// the nearest-rank p50/p95/p99/p99.9, the maximum sample, and the
    /// sample count; all zero when nothing was recorded.
    pub fn snapshot(&self) -> (r: LatencyStatistics)
        ensures
            r.sample_count == self@.len(),
            self@.len() == 0 ==> r == (LatencyStatistics {
                p50: 0u64,
                p95: 0u64,
                p99: 0u64,
                p999: 0u64,
                max: 0u64,
                sample_count: 0usize,
            }),
            self@.len() > 0 ==> {
                &&& r.p50 == percentile_of(self@, 500)
                &&& r.p95 == percentile_of(self@, 950)
                &&& r.p99 == percentile_of(self@, 990)
                &&& r.p999 == percentile_of(self@, 999)
                &&& r.max == percentile_of(self@, 1000)
            },
            forall|i: int| 0 <= i < self@.len() ==> self@[i] <= r.max,
            r.wf(),
    {
        if self.samples.len() == 0 {
            LatencyStatistics::empty()
        } else {
            let sorted = sort_samples(&self.samples);
            let p50 = percentile_from_sorted(&sorted, 500);
            let p95 = percentile_from_sorted(&sorted, 950);
            let p99 = percentile_from_sorted(&sorted, 990);
            let p999 = percentile_from_sorted(&sorted, 999);
            let max = percentile_from_sorted(&sorted, 1000);
            proof {
                lemma_percentile_ordering(self@);
                lemma_percentile_max_dominates(self@);
            }
            LatencyStatistics { p50, p95, p99, p999, max, sample_count: self.samples.len() }
        }
    }
}

/// How many samples a group of per-worker buffers holds in all.
pub open spec fn total_sample_count(batches: Seq<Seq<u64>>) -> int
    decreases batches.len(),
{
    if batches.len() == 0 {
        0
    } else {
        batches.first().len() + total_sample_count(batches.drop_first())
    }
}

/// Concurrent-write consistency law: merging W independent per-worker
/// buffers into one tracker loses and duplicates nothing — the merged
/// sample sequence holds exactly as many samples as the buffers together.
pub proof fn lemma_merged_sample_count(batches: Seq<Seq<u64>>)
    ensures
        batches.flatten().len() == total_sample_count(batches),
    decreases batches.len(),
{
    if batches.len() == 0 {
    } else {
        lemma_merged_sample_count(batches.drop_first());
    }
}

/// Merges per-worker sample buffers into one tracker, in order, keeping
/// every sample of every buffer.
pub fn merge_worker_samples(batches: &Vec<Vec<u64>>) -> (r: LatencyTracker)
    ensures
        r@ == batches.deep_view().flatten(),
        r@.len() == total_sample_count(batches.deep_view()),
{
    let ghost dv = batches.deep_view();
    let mut tracker = LatencyTracker::new();
    let mut w: usize = 0;
    proof {
        assert(dv.subrange(0, 0) =~= Seq::<Seq<u64>>::empty());
        assert(dv.subrange(0, 0).flatten() =~= Seq::<u64>::empty());
    }
    while w < batches.len()
        invariant
            w <= batches.len(),
            dv == batches.deep_view(),
            dv.len() == batches@.len(),
            forall|k: int| 0 <= k < batches@.len() ==> dv[k] == batches@[k]@,
            tracker@ == dv.subrange(0, w as int).flatten(),
        decreases batches.len() - w,
    {
        tracker.record_batch(&batches[w]);
        proof {
            assert(dv.subrange(0, w as int + 1) =~= dv.subrange(0, w as int).push(dv[w as int]));
            dv.subrange(0, w as int).lemma_flatten_push(dv[w as int]);
        }
        w = w + 1;
    }
    proof {
        assert(dv.subrange(0, dv.len() as int) =~= dv);
        lemma_merged_sample_count(dv);
    }
    tracker
}

} // verus!
