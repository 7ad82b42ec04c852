//! Fixed-point weighted-mean arithmetic.
//!
//! Scores, weights and thresholds throughout the crate are fractions of
//! [`SCALE`]: the integer `SCALE` stands for 1.0, `0` for 0.0.  A weighted
//! collection of scores is summarised by its weighted mean
//! `sum(score_i * weight_i) / sum(weight_i)`, which is `0` by convention
//! when every weight is zero (in particular when the collection is empty).

use vstd::prelude::*;

verus! {

/// The fixed-point denominator: this value stands for the fraction 1.0.
pub const SCALE: u32 = 10_000;

/// A scored component: `.0` is the score, `.1` the weight, both in
/// fixed-point units of [`SCALE`].
pub type ScorePair = (u32, u32);

/// Sum of `score * weight` over the pairs.
pub open spec fn weighted_total(s: Seq<ScorePair>) -> int
    decreases s.len(),
{
    if s.len() == 0 {
        0
    } else {
        weighted_total(s.drop_last()) + s.last().0 * s.last().1
    }
}

/// Sum of the weights of the pairs.
pub open spec fn weight_total(s: Seq<ScorePair>) -> int
    decreases s.len(),
{
    if s.len() == 0 {
        0
    } else {
        weight_total(s.drop_last()) + s.last().1
    }
}

/// The weighted mean of the pairs: `weighted_total / weight_total`,
/// and `0` when the total weight is zero.
pub open spec fn weighted_mean(s: Seq<ScorePair>) -> int {
    if weight_total(s) == 0 {
        0
    } else {
        weighted_total(s) / weight_total(s)
    }
}

/// Every pair's score and weight lies in `[0, SCALE]`.
pub open spec fn pairs_bounded(s: Seq<ScorePair>) -> bool {
    forall|i: int| 0 <= i < s.len() ==> #[trigger] s[i].0 <= SCALE && s[i].1 <= SCALE
}

proof fn lemma_weight_total_nonneg(s: Seq<ScorePair>)
    ensures
        weight_total(s) >= 0,
    decreases s.len(),
{
    if s.len() > 0 {
        lemma_weight_total_nonneg(s.drop_last());
    }
}

proof fn lemma_weighted_total_nonneg(s: Seq<ScorePair>)
    ensures
        weighted_total(s) >= 0,
    decreases s.len(),
{
    if s.len() > 0 {
        lemma_weighted_total_nonneg(s.drop_last());
    }
}

/// With bounded scores the weighted total is at most `SCALE` times the
/// weight total, so the weighted mean lies in `[0, SCALE]`.
proof fn lemma_weighted_total_le(s: Seq<ScorePair>)
    requires
        pairs_bounded(s),
    ensures
        weighted_total(s) <= SCALE * weight_total(s),
    decreases s.len(),
{
    if s.len() > 0 {
        assert(pairs_bounded(s.drop_last())) by {
            assert(forall|i: int|
                0 <= i < s.len() - 1 ==> #[trigger] s.drop_last()[i] == s[i]);
        }
        lemma_weighted_total_le(s.drop_last());
        assert(s.last().0 * s.last().1 <= SCALE * s.last().1) by (nonlinear_arith)
            requires
                s.last().0 <= SCALE,
        ;
        assert(SCALE * weight_total(s) == SCALE * weight_total(s.drop_last()) + SCALE * s.last().1)
            by (nonlinear_arith)
            requires
                weight_total(s) == weight_total(s.drop_last()) + s.last().1,
        ;
    }
}

/// The weighted mean of bounded pairs lies in `[0, SCALE]`.
pub proof fn lemma_weighted_mean_bounded(s: Seq<ScorePair>)
    requires
        pairs_bounded(s),
    ensures
        0 <= weighted_mean(s) <= SCALE,
{
    lemma_weight_total_nonneg(s);
    lemma_weighted_total_nonneg(s);
    if weight_total(s) != 0 {
        lemma_weighted_total_le(s);
        let wt = weight_total(s);
        vstd::arithmetic::div_mod::lemma_div_is_ordered(0, weighted_total(s), wt);
        vstd::arithmetic::div_mod::lemma_div_is_ordered(weighted_total(s), SCALE * wt, wt);
        vstd::arithmetic::div_mod::lemma_div_by_multiple(SCALE as int, wt);
    }
}

/// Computes the weighted mean of the pairs in fixed-point units:
/// `weighted_total / weight_total`, and `0` when the total weight is zero.
pub fn compute_weighted_mean(pairs: &Vec<ScorePair>) -> (r: u32)
    requires
        pairs_bounded(pairs@),
    ensures
        r == weighted_mean(pairs@),
        r <= SCALE,
{
    let ghost all = pairs@;
    let mut total_score: u128 = 0;
    let mut total_weight: u128 = 0;
    let mut i: usize = 0;
    while i < pairs.len()
        invariant
            0 <= i <= pairs.len(),
            pairs@ == all,
            pairs_bounded(all),
            total_score == weighted_total(all.subrange(0, i as int)),
            total_weight == weight_total(all.subrange(0, i as int)),
            total_score <= 100_000_000 * (i as int),
            total_weight <= 10_000 * (i as int),
        decreases pairs.len() - i,
    {
        let (s, w) = pairs[i];
        proof {
            assert(all.subrange(0, i + 1).drop_last() =~= all.subrange(0, i as int));
            assert(s * w <= 100_000_000) by (nonlinear_arith)
                requires
                    s <= 10_000,
                    w <= 10_000,
            ;
        }
        total_score = total_score + (s as u128) * (w as u128);
        total_weight = total_weight + (w as u128);
        i = i + 1;
    }
    proof {
        assert(all.subrange(0, pairs.len() as int) =~= all);
        lemma_weighted_mean_bounded(all);
        if total_weight != 0 {
            lemma_weighted_total_le(all);
            vstd::arithmetic::div_mod::lemma_div_is_ordered(
                weighted_total(all),
                SCALE * weight_total(all),
                weight_total(all),
            );
            vstd::arithmetic::div_mod::lemma_div_by_multiple(
                SCALE as int,
                weight_total(all),
            );
        }
    }
    if total_weight == 0 {
        0
    } else {
        (total_score / total_weight) as u32
    }
}

/// `fold_right` form of `weighted_total`, for the permutation argument.
proof fn lemma_weighted_total_fold_right(s: Seq<ScorePair>, v: int)
    ensures
        s.fold_right(|p: ScorePair, acc: int| acc + p.0 * p.1, v) == weighted_total(s) + v,
    decreases s.len(),
{
    if s.len() > 0 {
        lemma_weighted_total_fold_right(s.drop_last(), v + s.last().0 * s.last().1);
    }
}

/// `fold_right` form of `weight_total`, for the permutation argument.
proof fn lemma_weight_total_fold_right(s: Seq<ScorePair>, v: int)
    ensures
        s.fold_right(|p: ScorePair, acc: int| acc + p.1, v) == weight_total(s) + v,
    decreases s.len(),
{
    if s.len() > 0 {
        lemma_weight_total_fold_right(s.drop_last(), v + s.last().1);
    }
}

/// Weight normalization is order-free: two collections holding the same
/// scored components (as a multiset, so in any order) have the same
/// weighted total, the same weight total, and hence the same weighted
/// mean.  Reordering a gate's criteria, or a report's gates, never
/// changes a score.
pub proof fn lemma_weighted_mean_permutation(s1: Seq<ScorePair>, s2: Seq<ScorePair>)
    requires
        s1.to_multiset() == s2.to_multiset(),
    ensures
        weighted_total(s1) == weighted_total(s2),
        weight_total(s1) == weight_total(s2),
        weighted_mean(s1) == weighted_mean(s2),
{
    let f = |p: ScorePair, acc: int| acc + p.0 * p.1;
    let g = |p: ScorePair, acc: int| acc + p.1;
    assert(vstd::seq_lib::commutative_foldr(f));
    assert(vstd::seq_lib::commutative_foldr(g));
    vstd::seq_lib::lemma_fold_right_permutation(s1, s2, f, 0);
    vstd::seq_lib::lemma_fold_right_permutation(s1, s2, g, 0);
    lemma_weighted_total_fold_right(s1, 0);
    lemma_weighted_total_fold_right(s2, 0);
    lemma_weight_total_fold_right(s1, 0);
    lemma_weight_total_fold_right(s2, 0);
}

/// Zero-weight safety: when every weight is zero (in particular when
/// there are no pairs at all), the weighted mean is 0, never an error.
pub proof fn lemma_weighted_mean_zero_weights(s: Seq<ScorePair>)
    requires
        forall|i: int| 0 <= i < s.len() ==> #[trigger] s[i].1 == 0,
    ensures
        weight_total(s) == 0,
        weighted_mean(s) == 0,
    decreases s.len(),
{
    if s.len() > 0 {
        assert(forall|i: int|
            0 <= i < s.len() - 1 ==> #[trigger] s.drop_last()[i] == s[i]);
        lemma_weighted_mean_zero_weights(s.drop_last());
    }
}

/// Monotonicity: raising scores while keeping every weight fixed never
/// lowers the weighted total nor the weighted mean.
pub proof fn lemma_weighted_mean_monotone(s1: Seq<ScorePair>, s2: Seq<ScorePair>)
    requires
        s1.len() == s2.len(),
        forall|i: int| 0 <= i < s1.len() ==> #[trigger] s1[i].1 == s2[i].1,
        forall|i: int| 0 <= i < s1.len() ==> #[trigger] s1[i].0 <= s2[i].0,
    ensures
        weight_total(s1) == weight_total(s2),
        weighted_total(s1) <= weighted_total(s2),
        weighted_mean(s1) <= weighted_mean(s2),
    decreases s1.len(),
{
    if s1.len() == 0 {
    } else {
        assert(forall|i: int|
            0 <= i < s1.len() - 1 ==> #[trigger] s1.drop_last()[i] == s1[i]);
        assert(forall|i: int|
            0 <= i < s2.len() - 1 ==> #[trigger] s2.drop_last()[i] == s2[i]);
        lemma_weighted_mean_monotone(s1.drop_last(), s2.drop_last());
        assert(s1.last().0 * s1.last().1 <= s2.last().0 * s2.last().1) by (nonlinear_arith)
            requires
                s1.last().0 <= s2.last().0,
                s1.last().1 == s2.last().1,
        ;
    }
    lemma_weight_total_nonneg(s1);
    if weight_total(s1) != 0 {
        vstd::arithmetic::div_mod::lemma_div_is_ordered(
            weighted_total(s1),
            weighted_total(s2),
            weight_total(s1),
        );
    }
}

} // verus!
