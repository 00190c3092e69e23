//! Blending qualitative reviews into the analyses.
//!
//! A review changes an analysis once: the score of the review is noted, and
//! the total becomes three quarters of the old total plus one quarter of the
//! score of the review. An analysis that carries a review takes no other.

use crate::aggregate::Recommendation;
use crate::ai_reviewer::{is_valid_review, mark_sum, quality_value, AIReviewer};
use crate::analyzer::{AIReview, RepoAnalysis, Scores};
use crate::score::{div_towards_zero, Score};
use vstd::prelude::*;

verus! {

/// The total after a review: three quarters of the total before, and one
/// quarter of the score of the review.
pub open spec fn merged_total_value(old_total: real, quality: real) -> real {
    old_total * (3real / 4real) + quality * (1real / 4real)
}

/// The total after a review in ten-thousandths, from the total before and
/// the score of the review in ten-thousandths.
pub open spec fn merged_units(old_units: int, quality_units: int) -> int {
    div_towards_zero(3 * old_units + quality_units, 4)
}

/// The score of a review in ten-thousandths.
pub open spec fn quality_units(review: AIReview) -> int {
    20000 * mark_sum(review)
}

/// The analysis `before` with `review` blended in. An analysis that carries
/// a review already stays as it is.
pub open spec fn with_review(before: RepoAnalysis, review: AIReview) -> RepoAnalysis {
    if before.ai_review is Some {
        before
    } else {
        RepoAnalysis {
            repo: before.repo,
            total_score: Score::of_units(
                merged_units(before.total_score.units(), quality_units(review)),
            ),
            recommendation: before.recommendation,
            priority: before.priority,
            scores: Scores {
                commit_activity: before.scores.commit_activity,
                code_quality: before.scores.code_quality,
                developer_engagement: before.scores.developer_engagement,
                project_maturity: before.scores.project_maturity,
                ai_code_quality: Some(Score::of_units(quality_units(review))),
            },
            ai_review: Some(review),
            metadata: before.metadata,
        }
    }
}

/// The place of the first analysis of the repository named `repo`; the
/// length of `analyses` where there is none.
pub open spec fn position_of_repo(analyses: Seq<RepoAnalysis>, repo: Seq<char>) -> int
    decreases analyses.len(),
{
    if analyses.len() == 0 {
        0
    } else if analyses.first().repo@ == repo {
        0
    } else {
        1 + position_of_repo(analyses.drop_first(), repo)
    }
}

/// `analyses` after the review of the repository named `repo` is blended
/// into the first analysis of that name. Nothing changes where no analysis
/// has that name.
pub open spec fn with_review_of(
    analyses: Seq<RepoAnalysis>,
    repo: Seq<char>,
    review: AIReview,
) -> Seq<RepoAnalysis> {
    let at = position_of_repo(analyses, repo);
    if at < analyses.len() {
        analyses.update(at, with_review(analyses[at], review))
    } else {
        analyses
    }
}

/// `analyses` after all `reviews` are blended in, one after the other.
pub open spec fn with_reviews(
    analyses: Seq<RepoAnalysis>,
    reviews: Seq<(String, AIReview)>,
) -> Seq<RepoAnalysis>
    decreases reviews.len(),
{
    if reviews.len() == 0 {
        analyses
    } else {
        with_review_of(
            with_reviews(analyses, reviews.drop_last()),
            reviews.last().0@,
            reviews.last().1,
        )
    }
}

/// Finds the first analysis of the repository named `repo`.
fn find_repo(analyses: &Vec<RepoAnalysis>, repo: &String) -> (at: usize)
    ensures
        at == position_of_repo(analyses@, repo@),
        at <= analyses@.len(),
{
    let mut at: usize = 0;
    assert(analyses@.skip(0) =~= analyses@);
    while at < analyses.len() && analyses[at].repo != *repo
        invariant
            at <= analyses@.len(),
            position_of_repo(analyses@, repo@) == at + position_of_repo(
                analyses@.skip(at as int),
                repo@,
            ),
        decreases analyses@.len() - at,
    {
        proof {
            let tail = analyses@.skip(at as int);
            assert(tail.first() == analyses@[at as int]);
            assert(tail.drop_first() =~= analyses@.skip(at + 1));
        }
        at = at + 1;
    }
    proof {
        let tail = analyses@.skip(at as int);
        if at < analyses@.len() {
            assert(tail.first() == analyses@[at as int]);
        }
    }
    at
}

impl AIReviewer {
    /// Blends `review` into `analysis`: notes the review and its score, and
    /// makes the total three quarters of what it was plus one quarter of the
    /// score of the review. An analysis that carries a review already is
    /// handed back as it is.
    pub fn merge_review(&self, analysis: RepoAnalysis, review: AIReview) -> (merged: RepoAnalysis)
        ensures
            merged == with_review(analysis, review),
            analysis.wf() ==> merged.wf(),
    {
        if analysis.ai_review.is_some() {
            return analysis;
        }
        proof {
            if analysis.wf() {
                lemma_merge_formula(analysis, review);
            }
        }
        let quality = self.calculate_quality_score(&review);
        let weighted: i128 = 3 * (analysis.total_score.ten_thousandths() as i128)
            + quality.ten_thousandths() as i128;
        let units: i128 = if weighted >= 0 {
            weighted / 4
        } else {
            -((-weighted) / 4)
        };
        proof {
            quality.lemma_of_units();
        }
        RepoAnalysis {
            repo: analysis.repo,
            total_score: Score::from_ten_thousandths(units as i64),
            recommendation: analysis.recommendation,
            priority: analysis.priority,
            scores: Scores {
                commit_activity: analysis.scores.commit_activity,
                code_quality: analysis.scores.code_quality,
                developer_engagement: analysis.scores.developer_engagement,
                project_maturity: analysis.scores.project_maturity,
                ai_code_quality: Some(quality),
            },
            ai_review: Some(review),
            metadata: analysis.metadata,
        }
    }

    /// Blends each review into the first analysis of the repository it
    /// names. A review of a repository that has no analysis is dropped, and
    /// so is a second review of an analysis.
    pub fn merge_reviews(&self, analyses: &mut Vec<RepoAnalysis>, reviews: Vec<(String, AIReview)>)
        ensures
            final(analyses)@ == with_reviews(old(analyses)@, reviews@),
            final(analyses)@.len() == old(analyses)@.len(),
    {
        let ghost before = analyses@;
        let ghost all = reviews@;
        for named in it: reviews
            invariant
                it.seq() == all,
                analyses@ == with_reviews(before, all.take(it.index() as int)),
                analyses@.len() == before.len(),
        {
            proof {
                let upto = all.take(it.index() + 1);
                assert(upto.drop_last() =~= all.take(it.index() as int));
                assert(upto.last() == named);
            }
            let (repo, review) = named;
            let at = find_repo(analyses, &repo);
            if at < analyses.len() {
                let ghost current = analyses@;
                let analysis = analyses.remove(at);
                let merged = self.merge_review(analysis, review);
                analyses.insert(at, merged);
                assert(analyses@ =~= current.update(at as int, merged));
            }
        }
        assert(all.take(all.len() as int) =~= all);
    }

    /// The analyses to send for a qualitative review: those that are
    /// approved, in their order, and no more than `max_repos` of them. Gives
    /// their places in `analyses`.
    pub fn select_for_review(&self, analyses: &Vec<RepoAnalysis>, max_repos: usize) -> (chosen: Vec<
        usize,
    >)
        ensures
            chosen@.map_values(|i: usize| i as int) == places_for_review(
                analyses@,
                max_repos as int,
            ),
            forall|k: int| 0 <= k < chosen@.len() ==> (#[trigger] chosen@[k]) < analyses@.len(),
    {
        let mut chosen: Vec<usize> = Vec::new();
        let mut i: usize = 0;
        while i < analyses.len() && chosen.len() < max_repos
            invariant
                i <= analyses@.len(),
                chosen@.len() <= max_repos,
                chosen@.map_values(|i: usize| i as int) == approved_places(analyses@, i as int),
                forall|k: int| 0 <= k < chosen@.len() ==> (#[trigger] chosen@[k]) < analyses@.len(),
            decreases analyses@.len() - i,
        {
            if analyses[i].recommendation == Recommendation::Approve {
                chosen.push(i);
                assert(chosen@.map_values(|i: usize| i as int) =~= approved_places(
                    analyses@,
                    i as int,
                ).push(i as int));
            }
            i = i + 1;
        }
        proof {
            let done = approved_places(analyses@, i as int);
            let whole = approved_places(analyses@, analyses@.len() as int);
            lemma_approved_places_prefix(analyses@, i as int, analyses@.len() as int);
            if i < analyses@.len() {
                assert(done.len() == max_repos);
            } else {
                assert(whole.take(whole.len() as int) =~= whole);
            }
        }
        chosen
    }
}

/// The places, among the first `upto` analyses, of those that are approved.
pub open spec fn approved_places(analyses: Seq<RepoAnalysis>, upto: int) -> Seq<int>
    decreases upto,
{
    if upto <= 0 {
        Seq::empty()
    } else if analyses[upto - 1].recommendation == Recommendation::Approve {
        approved_places(analyses, upto - 1).push(upto - 1)
    } else {
        approved_places(analyses, upto - 1)
    }
}

/// The places of the analyses that are sent for a qualitative review: the
/// first `max_repos` of the approved, or all of them where there are fewer.
pub open spec fn places_for_review(analyses: Seq<RepoAnalysis>, max_repos: int) -> Seq<int> {
    let approved = approved_places(analyses, analyses.len() as int);
    if approved.len() <= max_repos {
        approved
    } else {
        approved.take(max_repos)
    }
}

/// The approved places among fewer analyses are the first of the approved
/// places among more.
pub proof fn lemma_approved_places_prefix(analyses: Seq<RepoAnalysis>, fewer: int, more: int)
    requires
        0 <= fewer <= more,
    ensures
        approved_places(analyses, fewer).len() <= approved_places(analyses, more).len(),
        approved_places(analyses, more).take(approved_places(analyses, fewer).len() as int)
            == approved_places(analyses, fewer),
    decreases more - fewer,
{
    if fewer < more {
        lemma_approved_places_prefix(analyses, fewer, more - 1);
        let short = approved_places(analyses, fewer);
        let mid = approved_places(analyses, more - 1);
        let long = approved_places(analyses, more);
        assert(long.take(short.len() as int) =~= mid.take(short.len() as int));
    } else {
        let all = approved_places(analyses, fewer);
        assert(all.take(all.len() as int) =~= all);
    }
}

/// The total after a review is three quarters of the total before plus one
/// quarter of the score of the review, exactly: for an analysis without a
/// review whose total has two decimal places. Where the total before lies
/// between 0 and 100 and the marks of the review are from 1 to 10, the total
/// after lies between 0 and 100 as well.
pub proof fn lemma_merge_formula(before: RepoAnalysis, review: AIReview)
    requires
        before.wf(),
        before.ai_review is None,
    ensures
        with_review(before, review).total_score.value() == merged_total_value(
            before.total_score.value(),
            quality_value(review),
        ),
        with_review(before, review).scores.ai_code_quality matches Some(quality)
            && quality.value() == quality_value(review),
        with_review(before, review).wf(),
        is_valid_review(review) && 0real <= before.total_score.value() <= 100real ==> 0real
            <= with_review(before, review).total_score.value() <= 100real,
{
    let old_units = before.total_score.units();
    let q = quality_units(review);
    let sum = 3 * old_units + q;
    assert(old_units % 100 == 0);
    assert(sum % 4 == 0) by {
        let h = old_units / 100;
        assert(old_units == 100 * h);
        assert(sum == 4 * (75 * h + 5000 * mark_sum(review)));
    }
    let merged = merged_units(old_units, q);
    assert(4 * merged == sum);
    before.total_score.lemma_of_units();
    assert(i64::MIN <= old_units <= i64::MAX) by {
        Score::lemma_units_range(before.total_score);
    }
    Score::lemma_units_of(merged);
    Score::lemma_units_of(q);
}

/// A review is blended into an analysis at most once: a second review
/// changes nothing.
pub proof fn lemma_merge_once(before: RepoAnalysis, first: AIReview, second: AIReview)
    ensures
        with_review(with_review(before, first), second) == with_review(before, first),
{
}

} // verus!
