//! Outlier-trimming sample aggregation: drop one instance of the minimum
//! and one of the maximum, then take the truncating mean of the rest.
//!
//! Low-cost analog front ends are subject to single-sample spikes, so every
//! analog channel is averaged this way over a small fixed sample budget.

use vstd::prelude::*;
use vstd::arithmetic::div_mod::{lemma_div_is_ordered, lemma_div_multiples_vanish};

verus! {

/// Upper bound of the per-deployment sample budget: sample sets are small
/// and fixed (a handful of readings per channel, never more than this).
pub const MAX_SAMPLE_SET: usize = 32;

/// Sum of all samples in the set.
pub open spec fn sum_of(s: Seq<u16>) -> int
    decreases s.len(),
{
    if s.len() == 0 {
        0
    } else {
        sum_of(s.drop_last()) + s.last()
    }
}

/// Smallest sample in the set.
pub open spec fn min_of(s: Seq<u16>) -> int
    recommends
        s.len() > 0,
    decreases s.len(),
{
    if s.len() <= 1 {
        s.last() as int
    } else {
        let m = min_of(s.drop_last());
        if (s.last() as int) < m {
            s.last() as int
        } else {
            m
        }
    }
}

/// Largest sample in the set.
pub open spec fn max_of(s: Seq<u16>) -> int
    recommends
        s.len() > 0,
    decreases s.len(),
{
    if s.len() <= 1 {
        s.last() as int
    } else {
        let m = max_of(s.drop_last());
        if (s.last() as int) > m {
            s.last() as int
        } else {
            m
        }
    }
}

/// The aggregate of a sample set: remove one instance of the minimum and
/// one instance of the maximum, then average the rest with truncating
/// integer division.
pub open spec fn trimmed_mean(s: Seq<u16>) -> int
    recommends
        s.len() >= 3,
{
    (sum_of(s) - min_of(s) - max_of(s)) / (s.len() - 2)
}

/// Every sample lies between the minimum and the maximum of its set.
pub proof fn lemma_min_max_are_bounds(s: Seq<u16>)
    requires
        s.len() > 0,
    ensures
        forall|i: int| 0 <= i < s.len() ==> min_of(s) <= #[trigger] s[i] <= max_of(s),
        min_of(s) <= max_of(s),
        0 <= min_of(s),
        max_of(s) <= u16::MAX,
    decreases s.len(),
{
    if s.len() > 1 {
        lemma_min_max_are_bounds(s.drop_last());
        assert(forall|i: int| 0 <= i < s.len() - 1 ==> s.drop_last()[i] == s[i]);
    }
}

/// When every sample stays within given bounds, so do the set's minimum and
/// maximum.
pub proof fn lemma_min_max_within(s: Seq<u16>, lo: int, hi: int)
    requires
        s.len() > 0,
        forall|i: int| 0 <= i < s.len() ==> lo <= #[trigger] s[i] <= hi,
    ensures
        lo <= min_of(s),
        max_of(s) <= hi,
    decreases s.len(),
{
    if s.len() > 1 {
        let t = s.drop_last();
        assert(forall|i: int| 0 <= i < t.len() ==> t[i] == s[i]);
        lemma_min_max_within(t, lo, hi);
    }
}

/// With the minimum and the maximum removed, the remaining sum stays
/// between `lo * (len - 2)` and `hi * (len - 2)` for any bounds `lo`, `hi`
/// on the samples.
pub proof fn lemma_trimmed_sum_bounds(s: Seq<u16>, lo: int, hi: int)
    requires
        s.len() >= 2,
        forall|i: int| 0 <= i < s.len() ==> lo <= #[trigger] s[i] <= hi,
    ensures
        lo * (s.len() - 2) <= sum_of(s) - min_of(s) - max_of(s) <= hi * (s.len() - 2),
    decreases s.len(),
{
    lemma_min_max_are_bounds(s);
    if s.len() == 2 {
        let t = s.drop_last();
        assert(t.len() == 1 && t.last() == s[0] && s.last() == s[1]);
        assert(t.drop_last() =~= Seq::<u16>::empty());
        assert(sum_of(Seq::<u16>::empty()) == 0);
        assert(sum_of(t) == s[0] as int);
        assert(min_of(t) == s[0] as int && max_of(t) == s[0] as int);
        assert(sum_of(s) == s[0] + s[1]);
        assert(min_of(s) + max_of(s) == s[0] + s[1]);
    } else {
        let t = s.drop_last();
        let x = s.last() as int;
        assert(forall|i: int| 0 <= i < t.len() ==> t[i] == s[i]);
        lemma_trimmed_sum_bounds(t, lo, hi);
        lemma_min_max_are_bounds(t);
        assert(sum_of(s) == sum_of(t) + x);
        assert(lo * (s.len() - 2) == lo * (t.len() - 2) + lo) by {
            assert(lo * (s.len() - 2) == lo * ((t.len() - 2) + 1));
            vstd::arithmetic::mul::lemma_mul_is_distributive_add(lo, t.len() - 2, 1);
        }
        assert(hi * (s.len() - 2) == hi * (t.len() - 2) + hi) by {
            assert(hi * (s.len() - 2) == hi * ((t.len() - 2) + 1));
            vstd::arithmetic::mul::lemma_mul_is_distributive_add(hi, t.len() - 2, 1);
        }
        if x <= min_of(t) {
            assert(min_of(s) == x && max_of(s) == max_of(t));
        } else if x >= max_of(t) {
            assert(min_of(s) == min_of(t) && max_of(s) == x);
        } else {
            assert(min_of(s) == min_of(t) && max_of(s) == max_of(t));
        }
    }
}

/// The trimmed mean of a sample set lies between the set's minimum and
/// maximum, and in particular within the value range of one sample.
pub proof fn lemma_trimmed_mean_bounds(s: Seq<u16>)
    requires
        s.len() >= 3,
    ensures
        min_of(s) <= trimmed_mean(s) <= max_of(s),
        0 <= trimmed_mean(s) <= u16::MAX,
{
    let n = s.len() - 2;
    let mid = sum_of(s) - min_of(s) - max_of(s);
    lemma_min_max_are_bounds(s);
    lemma_trimmed_sum_bounds(s, min_of(s), max_of(s));
    lemma_div_is_ordered(min_of(s) * n, mid, n);
    lemma_div_is_ordered(mid, max_of(s) * n, n);
    lemma_div_multiples_vanish(min_of(s), n);
    lemma_div_multiples_vanish(max_of(s), n);
    assert(min_of(s) * n == n * min_of(s)) by {
        vstd::arithmetic::mul::lemma_mul_is_commutative(min_of(s), n);
    }
    assert(max_of(s) * n == n * max_of(s)) by {
        vstd::arithmetic::mul::lemma_mul_is_commutative(max_of(s), n);
    }
}

/// Aggregate one channel's sample set: with fewer than three samples there
/// is not enough data to trim outliers and the result is `None`; otherwise
/// the result is exactly the outlier-trimmed truncating mean.
pub fn calculate_average(samples: &Vec<u16>) -> (r: Option<u16>)
    requires
        samples@.len() <= MAX_SAMPLE_SET,
    ensures
        samples@.len() <= 2 ==> r is None,
        samples@.len() >= 3 ==> r == Some(trimmed_mean(samples@) as u16),
        samples@.len() >= 3 ==> min_of(samples@) <= trimmed_mean(samples@) <= max_of(samples@),
{
    let n = samples.len();
    if n <= 2 {
        return None;
    }
    let ghost s = samples@;
    let first = samples[0];
    let mut sum: u32 = first as u32;
    let mut mn: u16 = first;
    let mut mx: u16 = first;
    let mut i: usize = 1;
    proof {
        let t1 = s.take(1);
        assert(t1.len() == 1 && t1.last() == s[0]);
        assert(t1.drop_last() =~= Seq::<u16>::empty());
        assert(sum_of(Seq::<u16>::empty()) == 0);
        assert(sum_of(t1) == s[0] as int);
        assert(min_of(t1) == s[0] as int && max_of(t1) == s[0] as int);
    }
    while i < n
        invariant
            1 <= i <= n,
            n == s.len() <= MAX_SAMPLE_SET,
            samples@ == s,
            sum == sum_of(s.take(i as int)),
            mn == min_of(s.take(i as int)),
            mx == max_of(s.take(i as int)),
            sum <= i * (u16::MAX as int),
        decreases n - i,
    {
        let v = samples[i];
        proof {
            assert(s.take(i + 1).drop_last() =~= s.take(i as int));
            assert(s.take(i + 1).last() == s[i as int]);
        }
        sum = sum + v as u32;
        if v < mn {
            mn = v;
        }
        if v > mx {
            mx = v;
        }
        i = i + 1;
    }
    proof {
        assert(s.take(n as int) =~= s);
        lemma_min_max_are_bounds(s);
        lemma_trimmed_sum_bounds(s, min_of(s), max_of(s));
        lemma_trimmed_mean_bounds(s);
    }
    let middle = sum - mn as u32 - mx as u32;
    let count = (n as u32) - 2;
    let avg = middle / count;
    Some(avg as u16)
}

} // verus!
