//! The weighted total of the four factor scores, and the recommendation
//! that follows from it.

use crate::score::{
    lemma_ratio_at_least, lemma_ratio_at_most, ratio_of, round_half_away, round_to_hundredths,
    Ratio, Score, RATIO_DEN_MAX,
};
use vstd::prelude::*;

verus! {

/// The total score: commit activity counts for 30 %, code quality and
/// developer engagement for 25 % each, project maturity for 20 %.
pub open spec fn total_value(commit: real, quality: real, engagement: real, maturity: real) -> real {
    3real / 10real * commit + 1real / 4real * quality + 1real / 4real * engagement + 1real
        / 5real * maturity
}

/// The total of four scores between 0 and 100 lies between 0 and 100.
pub proof fn lemma_total_value_in_range(commit: real, quality: real, engagement: real, maturity: real)
    requires
        0real <= commit <= 100real,
        0real <= quality <= 100real,
        0real <= engagement <= 100real,
        0real <= maturity <= 100real,
    ensures
        0real <= total_value(commit, quality, engagement, maturity) <= 100real,
{
}

/// Largest magnitude of a factor score that [`weighted_total`] takes: 2^31.
pub const FACTOR_MAGNITUDE_MAX: i128 = 0x8000_0000;

/// Whether the magnitude of `factor` is at most [`FACTOR_MAGNITUDE_MAX`].
pub open spec fn factor_in_range(factor: Ratio) -> bool {
    &&& factor.wf()
    &&& -FACTOR_MAGNITUDE_MAX * factor.denom() <= factor.numer()
    &&& factor.numer() <= FACTOR_MAGNITUDE_MAX * factor.denom()
}

/// Whether the weighted total of the four factors can be held exactly: each
/// factor is in range, and twenty times the product of the denominators is
/// within the limit of a [`Ratio`].
pub open spec fn weighted_fits(
    commit: Ratio,
    quality: Ratio,
    engagement: Ratio,
    maturity: Ratio,
) -> bool {
    &&& factor_in_range(commit)
    &&& factor_in_range(quality)
    &&& factor_in_range(engagement)
    &&& factor_in_range(maturity)
    &&& 20 * (commit.denom() * quality.denom() * engagement.denom() * maturity.denom())
        <= RATIO_DEN_MAX
}

/// Products of some of four positive numbers are at most the product of all.
proof fn lemma_partial_products(a: int, b: int, c: int, d: int)
    requires
        a >= 1,
        b >= 1,
        c >= 1,
        d >= 1,
    ensures
        1 <= a * b <= (a * b) * (c * d),
        1 <= c * d <= (a * b) * (c * d),
        1 <= b * (c * d) <= (a * b) * (c * d),
        1 <= a * (c * d) <= (a * b) * (c * d),
        1 <= (a * b) * d <= (a * b) * (c * d),
        1 <= (a * b) * c <= (a * b) * (c * d),
        a * (b * (c * d)) == (a * b) * (c * d),
        b * (a * (c * d)) == (a * b) * (c * d),
        c * ((a * b) * d) == (a * b) * (c * d),
        d * ((a * b) * c) == (a * b) * (c * d),
        a * b * c * d == (a * b) * (c * d),
{
    let ab = a * b;
    let cd = c * d;
    assert(1 <= ab && 1 <= cd && a <= ab && b <= ab && c <= cd && d <= cd) by (nonlinear_arith)
        requires
            a >= 1,
            b >= 1,
            c >= 1,
            d >= 1,
            ab == a * b,
            cd == c * d,
    ;
    assert(ab <= ab * cd && cd <= ab * cd && 1 <= b * cd && 1 <= a * cd && 1 <= ab * d && 1 <= ab
        * c) by (nonlinear_arith)
        requires
            a >= 1,
            b >= 1,
            c >= 1,
            d >= 1,
            ab >= 1,
            cd >= 1,
    ;
    assert(a * (b * cd) == ab * cd && b * (a * cd) == ab * cd && c * (ab * d) == ab * cd && d * (
    ab * c) == ab * cd && a * b * c * d == ab * cd) by (nonlinear_arith)
        requires
            ab == a * b,
            cd == c * d,
    ;
    assert(b * cd <= a * (b * cd) && a * cd <= b * (a * cd) && ab * d <= c * (ab * d) && ab * c
        <= d * (ab * c)) by (nonlinear_arith)
        requires
            a >= 1,
            b >= 1,
            c >= 1,
            d >= 1,
            b * cd >= 1,
            a * cd >= 1,
            ab * d >= 1,
            ab * c >= 1,
    ;
}

/// A factor of magnitude at most `k`, multiplied by the other denominators,
/// is at most `k` times the product of all denominators.
proof fn lemma_term_bound(n: int, d: int, rest: int, k: int)
    requires
        d >= 1,
        rest >= 1,
        k >= 0,
        -k * d <= n <= k * d,
    ensures
        -k * (d * rest) <= n * rest <= k * (d * rest),
{
    assert(-k * (d * rest) <= n * rest <= k * (d * rest)) by (nonlinear_arith)
        requires
            d >= 1,
            rest >= 1,
            k >= 0,
            -k * d <= n <= k * d,
    ;
}

/// One weighted factor, brought to the common denominator.
proof fn lemma_weighted_term(n: int, d: int, rest: int, weight: int)
    requires
        d >= 1,
        rest >= 1,
    ensures
        ratio_of(weight * (n * rest), 20 * (d * rest)) == weight as real / 20real * ratio_of(n, d),
{
    assert((weight * (n * rest)) as real / (20 * (d * rest)) as real == weight as real / 20real
        * (n as real / d as real)) by (nonlinear_arith)
        requires
            d >= 1,
            rest >= 1,
    ;
}

/// Four ratios of one denominator, added.
proof fn lemma_common_denominator(a: int, b: int, c: int, d: int, den: int)
    requires
        den >= 1,
    ensures
        ratio_of(a + b + c + d, den) == ratio_of(a, den) + ratio_of(b, den) + ratio_of(c, den)
            + ratio_of(d, den),
{
    assert((a + b + c + d) as real / den as real == a as real / den as real + b as real
        / den as real + c as real / den as real + d as real / den as real) by (nonlinear_arith)
        requires
            den >= 1,
    ;
}

/// The weighted total of the four factor scores, exact.
pub fn weighted_total(commit: &Ratio, quality: &Ratio, engagement: &Ratio, maturity: &Ratio) -> (total:
    Ratio)
    requires
        weighted_fits(*commit, *quality, *engagement, *maturity),
    ensures
        total.value() == total_value(
            commit.value(),
            quality.value(),
            engagement.value(),
            maturity.value(),
        ),
        total.wf(),
        total.denom() == 20 * (commit.denom() * quality.denom() * engagement.denom()
            * maturity.denom()),
{
    let cn = commit.numerator();
    let cd = commit.denominator();
    let qn = quality.numerator();
    let qd = quality.denominator();
    let en = engagement.numerator();
    let ed = engagement.denominator();
    let mn = maturity.numerator();
    let md = maturity.denominator();
    proof {
        lemma_partial_products(cd as int, qd as int, ed as int, md as int);
        lemma_term_bound(cn as int, cd as int, qd * (ed * md), FACTOR_MAGNITUDE_MAX as int);
        lemma_term_bound(qn as int, qd as int, cd * (ed * md), FACTOR_MAGNITUDE_MAX as int);
        lemma_term_bound(en as int, ed as int, (cd * qd) * md, FACTOR_MAGNITUDE_MAX as int);
        lemma_term_bound(mn as int, md as int, (cd * qd) * ed, FACTOR_MAGNITUDE_MAX as int);
        lemma_weighted_term(cn as int, cd as int, qd * (ed * md), 6);
        lemma_weighted_term(qn as int, qd as int, cd * (ed * md), 5);
        lemma_weighted_term(en as int, ed as int, (cd * qd) * md, 5);
        lemma_weighted_term(mn as int, md as int, (cd * qd) * ed, 4);
    }
    let em: i128 = ed * md;
    let cq: i128 = cd * qd;
    let without_commit: i128 = qd * em;
    let without_quality: i128 = cd * em;
    let without_engagement: i128 = cq * md;
    let without_maturity: i128 = cq * ed;
    let den: i128 = 20 * (cq * em);
    let term_commit: i128 = 6 * (cn * without_commit);
    let term_quality: i128 = 5 * (qn * without_quality);
    let term_engagement: i128 = 5 * (en * without_engagement);
    let term_maturity: i128 = 4 * (mn * without_maturity);
    let num: i128 = term_commit + term_quality + term_engagement + term_maturity;
    proof {
        lemma_common_denominator(
            term_commit as int,
            term_quality as int,
            term_engagement as int,
            term_maturity as int,
            den as int,
        );
    }
    Ratio::of(num, den)
}

/// What to do with a repository.
#[derive(Clone, Copy, Debug, PartialEq, Eq, Structural)]
pub enum Recommendation {
    /// Take it up.
    Approve,
    /// Have someone look at it.
    Review,
    /// Leave it.
    Reject,
}

/// How urgent a repository is.
#[derive(Clone, Copy, Debug, PartialEq, Eq, Structural)]
pub enum Priority {
    /// Goes with [`Recommendation::Approve`].
    High,
    /// Goes with [`Recommendation::Review`].
    Medium,
    /// Goes with [`Recommendation::Reject`].
    Low,
}

/// Least total score that is approved.
pub const APPROVE_AT: i32 = 70;

/// Least total score that is put up for review.
pub const REVIEW_AT: i32 = 60;

/// The recommendation for a total score: approve from 70, review from 60,
/// reject below.
pub open spec fn recommendation_for(total: real) -> Recommendation {
    if total >= 70real {
        Recommendation::Approve
    } else if total >= 60real {
        Recommendation::Review
    } else {
        Recommendation::Reject
    }
}

/// The priority that goes with a recommendation.
pub open spec fn priority_of(recommendation: Recommendation) -> Priority {
    match recommendation {
        Recommendation::Approve => Priority::High,
        Recommendation::Review => Priority::Medium,
        Recommendation::Reject => Priority::Low,
    }
}

impl Recommendation {
    /// The recommendation for the total score `total`.
    pub fn for_total(total: &Ratio) -> (recommendation: Recommendation)
        ensures
            recommendation == recommendation_for(total.value()),
    {
        if total.at_least(APPROVE_AT) {
            Recommendation::Approve
        } else if total.at_least(REVIEW_AT) {
            Recommendation::Review
        } else {
            Recommendation::Reject
        }
    }

    /// The priority that goes with this recommendation.
    pub fn priority(&self) -> (priority: Priority)
        ensures
            priority == priority_of(*self),
    {
        match self {
            Recommendation::Approve => Priority::High,
            Recommendation::Review => Priority::Medium,
            Recommendation::Reject => Priority::Low,
        }
    }

    /// The recommendation in capital letters: `APPROVE`, `REVIEW` or
    /// `REJECT`.
    pub fn label(&self) -> (label: &'static str)
        ensures
            label@ == match *self {
                Recommendation::Approve => "APPROVE"@,
                Recommendation::Review => "REVIEW"@,
                Recommendation::Reject => "REJECT"@,
            },
    {
        match self {
            Recommendation::Approve => "APPROVE",
            Recommendation::Review => "REVIEW",
            Recommendation::Reject => "REJECT",
        }
    }
}

impl Priority {
    /// The priority in capital letters: `HIGH`, `MEDIUM` or `LOW`.
    pub fn label(&self) -> (label: &'static str)
        ensures
            label@ == match *self {
                Priority::High => "HIGH"@,
                Priority::Medium => "MEDIUM"@,
                Priority::Low => "LOW"@,
            },
    {
        match self {
            Priority::High => "HIGH",
            Priority::Medium => "MEDIUM",
            Priority::Low => "LOW",
        }
    }
}

/// A factor score or a total, rounded to two places for keeping.
pub fn rounded(score: &Ratio) -> (kept: Score)
    requires
        factor_in_range(*score),
    ensures
        kept.value() == round_to_hundredths(score.value()),
        kept.units() == 100 * round_half_away(score.value() * 100real),
        kept.is_two_decimal(),
        0real <= score.value() <= 100real ==> 0real <= kept.value() <= 100real,
        -430_000_000_000_000 <= kept.units() <= 430_000_000_000_000,
{
    proof {
        lemma_ratio_at_least(score.numer(), score.denom(), -FACTOR_MAGNITUDE_MAX as int);
        lemma_ratio_at_most(score.numer(), score.denom(), FACTOR_MAGNITUDE_MAX as int);
    }
    let kept = Score::rounding(score);
    kept.unwrap()
}

/// A weighted total of four factors in range is in range itself.
pub proof fn lemma_total_in_range(
    commit: Ratio,
    quality: Ratio,
    engagement: Ratio,
    maturity: Ratio,
    total: Ratio,
)
    requires
        weighted_fits(commit, quality, engagement, maturity),
        total.wf(),
        total.value() == total_value(
            commit.value(),
            quality.value(),
            engagement.value(),
            maturity.value(),
        ),
    ensures
        factor_in_range(total),
{
    let k = FACTOR_MAGNITUDE_MAX as int;
    lemma_ratio_at_least(commit.numer(), commit.denom(), -k);
    lemma_ratio_at_most(commit.numer(), commit.denom(), k);
    lemma_ratio_at_least(quality.numer(), quality.denom(), -k);
    lemma_ratio_at_most(quality.numer(), quality.denom(), k);
    lemma_ratio_at_least(engagement.numer(), engagement.denom(), -k);
    lemma_ratio_at_most(engagement.numer(), engagement.denom(), k);
    lemma_ratio_at_least(maturity.numer(), maturity.denom(), -k);
    lemma_ratio_at_most(maturity.numer(), maturity.denom(), k);
    lemma_ratio_at_least(total.numer(), total.denom(), -k);
    lemma_ratio_at_most(total.numer(), total.denom(), k);
}

} // verus!
