use vstd::prelude::*;
use vstd::relations::{sorted_by, total_ordering};
use vstd::seq_lib::lemma_sorted_unique;

use crate::external::{size_leq, sort_sizes};

verus! {

/// Why no summary could be computed.
#[derive(Clone, Copy, Debug, PartialEq, Eq, Structural)]
pub enum StatsError {
    /// The sequence of sizes was empty.
    EmptyInput,
}

/// Five-number summary of a non-empty collection of sizes.
///
/// The three interpolated statistics are averages of two elements, so
/// they are held exactly as twice their value: `twice_median == 51`
/// stands for a median of 25.5.
#[derive(Clone, Copy, Debug, PartialEq, Eq, Structural)]
pub struct Distribution {
    pub min: u64,
    pub max: u64,
    pub twice_median: u128,
    pub twice_lower_quartile: u128,
    pub twice_upper_quartile: u128,
}

/// The input in ascending order.
pub open spec fn sorted_sizes(s: Seq<u64>) -> Seq<u64> {
    s.sort_by(size_leq())
}

/// Index of the upper of the two sorted elements that a statistic at
/// fraction `m / d` of `n` elements is taken from.
pub open spec fn stat_high(n: int, m: int, d: int) -> int {
    n * m / d
}

/// Index of the lower of those two elements: the one before when `n * m`
/// is a multiple of `d`, else the same one.
pub open spec fn stat_low(n: int, m: int, d: int) -> int {
    if (n * m) % d == 0 {
        n * m / d - 1
    } else {
        n * m / d
    }
}

/// Twice the statistic at fraction `m / d` of the sorted sequence `t`.
pub open spec fn twice_stat(t: Seq<u64>, m: int, d: int) -> int {
    t[stat_low(t.len() as int, m, d)] + t[stat_high(t.len() as int, m, d)]
}

impl Distribution {
    /// `min <= lower_quartile <= median <= upper_quartile <= max`.
    pub open spec fn wf(&self) -> bool {
        &&& 2 * self.min <= self.twice_lower_quartile
        &&& self.twice_lower_quartile <= self.twice_median
        &&& self.twice_median <= self.twice_upper_quartile
        &&& self.twice_upper_quartile <= 2 * self.max
    }

    /// The summary taken from the ascending sequence `t`.
    pub open spec fn is_summary_of_sorted(&self, t: Seq<u64>) -> bool {
        &&& t.len() > 0
        &&& self.min == t[0]
        &&& self.max == t.last()
        &&& self.twice_median == twice_stat(t, 1, 2)
        &&& self.twice_lower_quartile == twice_stat(t, 1, 4)
        &&& self.twice_upper_quartile == twice_stat(t, 3, 4)
    }

    /// The summary of the sizes `s`, in any order.
    pub open spec fn is_summary_of(&self, s: Seq<u64>) -> bool {
        self.is_summary_of_sorted(sorted_sizes(s))
    }
}

/// Ascending order on sizes is a total order.
pub proof fn lemma_size_leq_total()
    ensures
        total_ordering(size_leq()),
{
}

/// Sorting yields an ascending permutation of the input.
pub proof fn lemma_sorted_sizes(s: Seq<u64>)
    ensures
        sorted_by(sorted_sizes(s), size_leq()),
        sorted_sizes(s).to_multiset() == s.to_multiset(),
        sorted_sizes(s).len() == s.len(),
{
    lemma_size_leq_total();
    s.lemma_sort_by_ensures(size_leq());
    s.to_multiset_ensures();
    sorted_sizes(s).to_multiset_ensures();
}


/// For `n >= 1`, the two indices of each statistic lie in `0..n`, the
/// lower one first, and they grow from the lower quartile through the
/// median to the upper quartile.
pub proof fn lemma_stat_indices(n: int)
    requires
        n >= 1,
    ensures
        0 <= stat_low(n, 1, 4) <= stat_high(n, 1, 4),
        0 <= stat_low(n, 1, 2) <= stat_high(n, 1, 2),
        0 <= stat_low(n, 3, 4) <= stat_high(n, 3, 4) < n,
        stat_low(n, 1, 4) <= stat_low(n, 1, 2) <= stat_low(n, 3, 4),
        stat_high(n, 1, 4) <= stat_high(n, 1, 2) <= stat_high(n, 3, 4),
{
}

/// In an ascending sequence, an element at a lower index is no larger.
proof fn lemma_sorted_le(t: Seq<u64>, i: int, j: int)
    requires
        sorted_by(t, size_leq()),
        0 <= i <= j < t.len(),
    ensures
        t[i] <= t[j],
{
    if i < j {
        assert(size_leq()(t[i], t[j]));
    }
}

/// Twice the statistic at fraction `m / d` of the ascending vector `t`.
fn twice_stat_of_sorted(t: &Vec<u64>, m: u128, d: u128) -> (r: u128)
    requires
        t@.len() > 0,
        (m == 1 && d == 2) || (m == 1 && d == 4) || (m == 3 && d == 4),
    ensures
        r == twice_stat(t@, m as int, d as int),
{
    let n = t.len();
    proof {
        lemma_stat_indices(n as int);
    }
    let nm: u128 = (n as u128) * m;
    let high = (nm / d) as usize;
    let low = if nm % d == 0 { high - 1 } else { high };
    (t[low] as u128) + (t[high] as u128)
}

impl Distribution {
    /// The five-number summary of `sizes`, or `EmptyInput` when there are
    /// none.
    ///
    /// The quartiles come from fixed indices, which is coarse on few sizes:
    /// with two of them the lower quartile is the smaller one and the upper
    /// quartile the larger.
    pub fn from_vec(sizes: Vec<u64>) -> (r: Result<Distribution, StatsError>)
        ensures
            match r {
                Ok(d) => sizes@.len() > 0 && d.is_summary_of(sizes@) && d.wf(),
                Err(e) => sizes@.len() == 0 && e == StatsError::EmptyInput,
            },
    {
        if sizes.len() == 0 {
            return Err(StatsError::EmptyInput);
        }
        let ghost input = sizes@;
        let mut sizes = sizes;
        sort_sizes(&mut sizes);
        proof {
            lemma_sorted_sizes(input);
            lemma_size_leq_total();
            lemma_sorted_unique(sizes@, sorted_sizes(input), size_leq());
        }
        let n = sizes.len();
        let d = Distribution {
            min: sizes[0],
            max: sizes[n - 1],
            twice_median: twice_stat_of_sorted(&sizes, 1, 2),
            twice_lower_quartile: twice_stat_of_sorted(&sizes, 1, 4),
            twice_upper_quartile: twice_stat_of_sorted(&sizes, 3, 4),
        };
        proof {
            lemma_summary_wf(d, sizes@);
        }
        Ok(d)
    }
}

/// A summary of an ascending sequence is ordered.
proof fn lemma_summary_wf(d: Distribution, t: Seq<u64>)
    requires
        sorted_by(t, size_leq()),
        d.is_summary_of_sorted(t),
    ensures
        d.wf(),
{
    let n = t.len() as int;
    lemma_stat_indices(n);
    lemma_sorted_le(t, 0, stat_low(n, 1, 4));
    lemma_sorted_le(t, 0, stat_high(n, 1, 4));
    lemma_sorted_le(t, stat_low(n, 1, 4), stat_low(n, 1, 2));
    lemma_sorted_le(t, stat_high(n, 1, 4), stat_high(n, 1, 2));
    lemma_sorted_le(t, stat_low(n, 1, 2), stat_low(n, 3, 4));
    lemma_sorted_le(t, stat_high(n, 1, 2), stat_high(n, 3, 4));
    lemma_sorted_le(t, stat_high(n, 3, 4), n - 1);
    lemma_sorted_le(t, stat_low(n, 3, 4), n - 1);
}


/// Every summary of a non-empty collection of sizes is ordered:
/// `min <= lower_quartile <= median <= upper_quartile <= max`.
pub proof fn lemma_summary_ordered(d: Distribution, s: Seq<u64>)
    requires
        d.is_summary_of(s),
    ensures
        d.wf(),
{
    lemma_sorted_sizes(s);
    lemma_summary_wf(d, sorted_sizes(s));
}

/// The summary's `min` is the smallest of the sizes and its `max` the
/// largest: both occur in the input, and every size lies between them.
pub proof fn lemma_summary_extremes(d: Distribution, s: Seq<u64>)
    requires
        d.is_summary_of(s),
    ensures
        s.contains(d.min),
        s.contains(d.max),
        forall|i: int| 0 <= i < s.len() ==> d.min <= #[trigger] s[i] <= d.max,
{
    let t = sorted_sizes(s);
    lemma_sorted_sizes(s);
    s.to_multiset_ensures();
    t.to_multiset_ensures();
    assert(t.contains(t[0]));
    assert(t.to_multiset().count(t[0]) > 0);
    assert(s.to_multiset().count(t[0]) > 0);
    assert(t.contains(t[t.len() - 1]));
    assert(t.to_multiset().count(t[t.len() - 1]) > 0);
    assert(s.to_multiset().count(t[t.len() - 1]) > 0);
    assert forall|i: int| 0 <= i < s.len() implies d.min <= #[trigger] s[i] <= d.max by {
        assert(s.contains(s[i]));
        assert(s.to_multiset().count(s[i]) > 0);
        assert(t.to_multiset().count(s[i]) > 0);
        assert(t.contains(s[i]));
        let k = choose|k: int| 0 <= k < t.len() && t[k] == s[i];
        lemma_sorted_le(t, 0, k);
        lemma_sorted_le(t, k, t.len() - 1);
    }
}

/// The summary depends on the sizes alone, not on their order: two
/// inputs that are permutations of each other have the same summary.
pub proof fn lemma_summary_permutation(s1: Seq<u64>, s2: Seq<u64>)
    requires
        s1.to_multiset() == s2.to_multiset(),
    ensures
        sorted_sizes(s1) == sorted_sizes(s2),
        forall|d: Distribution| #[trigger] d.is_summary_of(s1) <==> d.is_summary_of(s2),
{
    lemma_sorted_sizes(s1);
    lemma_sorted_sizes(s2);
    lemma_size_leq_total();
    lemma_sorted_unique(sorted_sizes(s1), sorted_sizes(s2), size_leq());
}

/// For a single size `v`, all five statistics equal `v`.
pub proof fn lemma_summary_single(d: Distribution, v: u64)
    requires
        d.is_summary_of(seq![v]),
    ensures
        d.min == v,
        d.max == v,
        d.twice_lower_quartile == 2 * v,
        d.twice_median == 2 * v,
        d.twice_upper_quartile == 2 * v,
{
    let s = seq![v];
    lemma_sorted_sizes(s);
    lemma_size_leq_total();
    assert(sorted_by(s, size_leq()));
    lemma_sorted_unique(sorted_sizes(s), s, size_leq());
}

} // verus!
