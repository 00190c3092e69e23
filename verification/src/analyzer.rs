//! Scoring a repository.
//!
//! A [`GemAnalyzer`] takes what was fetched about a repository, signal by
//! signal (`None` where a fetch failed), and gives the four factor scores,
//! their weighted total and a recommendation. No scorer fails: a signal that
//! could not be fetched gives the neutral score of its factor.

use crate::aggregate::{
    lemma_total_in_range, priority_of, recommendation_for, rounded, total_value, weighted_total,
    Priority, Recommendation,
};
use crate::factors::{
    age_in_days, code_quality_points, code_quality_value, commit_activity_value, count_closed,
    count_merged, count_recent, developer_engagement_value, engagement_share, has_github_dir,
    has_license, has_readme, has_tests, is_github_dir, is_license, is_readme, is_test_entry,
    lemma_ratio_sum, lemma_ratio_times_denom, lemma_share, maturity_value, Commit, Issue,
    PullRequest, RepoContents, VERY_ACTIVE_COMMITS,
};
use crate::ranking::{completed, failure_count, gather_completed};
use crate::score::{
    lemma_ratio_at_least, lemma_ratio_at_most, lemma_ratio_whole, ratio_of, round_to_hundredths,
    Ratio, Score,
};
use crate::text::{chars_of, contains, lowercase_chars, same_chars};
use crate::time::Timestamp;
use vstd::prelude::*;

verus! {

/// What is known of a repository before it is scored.
#[derive(Clone, Debug, PartialEq, Eq)]
pub struct Metadata {
    /// The number of stars.
    pub stars: i32,
    /// The number of forks.
    pub forks: i32,
    /// The main programming language, where the forge names one.
    pub language: Option<String>,
    /// When the repository was created, as an RFC 3339 date and time.
    pub created_at: String,
    /// When the repository was last pushed to, as an RFC 3339 date and time.
    pub last_push: String,
}

/// What was fetched about a repository, signal by signal; `None` where a
/// fetch failed.
#[derive(Clone, Debug, PartialEq, Eq)]
pub struct Signals {
    /// The latest commits.
    pub commits: Option<Vec<Commit>>,
    /// The top-level directory.
    pub contents: Option<Vec<RepoContents>>,
    /// The latest issues, open and closed.
    pub issues: Option<Vec<Issue>>,
    /// The latest pull requests, open and closed.
    pub pull_requests: Option<Vec<PullRequest>>,
}

/// The scores of a repository as they are kept: rounded to two places.
#[derive(Clone, Debug, PartialEq, Eq)]
pub struct Scores {
    /// Factor 1: how lively the history is.
    pub commit_activity: Score,
    /// Factor 2: what the directory listing shows of care.
    pub code_quality: Score,
    /// Factor 3: how much of what was opened has been resolved.
    pub developer_engagement: Score,
    /// Factor 4: age, stars and forks.
    pub project_maturity: Score,
    /// The score of the qualitative review, where there was one.
    pub ai_code_quality: Option<Score>,
}

/// A qualitative review of a repository: five marks from 1 to 10, and what
/// was said about it.
#[derive(Clone, Debug, PartialEq, Eq)]
pub struct AIReview {
    /// Structure, modularity, design.
    pub architecture: i32,
    /// Read-me, comments, guides.
    pub documentation: i32,
    /// Tests and quality assurance.
    pub testing: i32,
    /// Style, security, performance.
    pub practices: i32,
    /// How new the approach is.
    pub innovation: i32,
    /// What is good about the project.
    pub key_strengths: Vec<String>,
    /// What could be better.
    pub improvements: Vec<String>,
    /// The review in one sentence.
    pub assessment: String,
}

/// The result of scoring one repository.
#[derive(Clone, Debug, PartialEq, Eq)]
pub struct RepoAnalysis {
    /// The repository, as `owner/name`.
    pub repo: String,
    /// The total score.
    pub total_score: Score,
    /// What to do with the repository.
    pub recommendation: Recommendation,
    /// How urgent it is.
    pub priority: Priority,
    /// The factor scores.
    pub scores: Scores,
    /// The qualitative review, where there was one.
    pub ai_review: Option<AIReview>,
    /// What was known of the repository beforehand.
    pub metadata: Metadata,
}

impl RepoAnalysis {
    /// Validity of an analysis: the priority goes with the recommendation,
    /// the score of the review is there exactly when the review is, and
    /// before a review the total has two decimal places.
    pub open spec fn wf(self) -> bool {
        &&& self.priority == priority_of(self.recommendation)
        &&& self.ai_review is Some <==> self.scores.ai_code_quality is Some
        &&& self.ai_review is None ==> self.total_score.is_two_decimal()
    }
}

/// The maturity score of a repository at `now`.
pub open spec fn repository_maturity(metadata: Metadata, now: Timestamp) -> real {
    maturity_value(
        age_in_days(metadata.created_at@, now),
        metadata.stars as int,
        metadata.forks as int,
    )
}

/// The total score of a repository at `now`, before rounding.
pub open spec fn analysis_total(metadata: Metadata, signals: Signals, now: Timestamp) -> real {
    total_value(
        commit_activity_value(signals.commits, now),
        code_quality_value(signals.contents),
        developer_engagement_value(signals.issues, signals.pull_requests),
        repository_maturity(metadata, now),
    )
}

/// Largest denominator of an engagement score: 2^64.
pub const ENGAGEMENT_DEN_MAX: i128 = 0x1_0000_0000_0000_0000;

/// Longest list of issues or of pull requests that the engagement scorer
/// takes: the counts are multiplied with each other in 128 bits.
pub const ENGAGEMENT_LIST_MAX: usize = 0xffff_ffff;

/// The denominator in which the maturity score is exact.
pub const MATURITY_DEN: i128 = 7300;

/// Whether the lists of issues and pull requests are short enough to score.
pub open spec fn signals_in_reach(signals: Signals) -> bool {
    &&& signals.issues matches Some(list) ==> list@.len() <= ENGAGEMENT_LIST_MAX
    &&& signals.pull_requests matches Some(list) ==> list@.len() <= ENGAGEMENT_LIST_MAX
}

/// Whether age, stars and forks are all non-negative: the creation date,
/// where it can be read, does not lie a day or more after `now`.
pub open spec fn maturity_inputs_non_negative(metadata: Metadata, now: Timestamp) -> bool {
    &&& metadata.stars >= 0
    &&& metadata.forks >= 0
    &&& age_in_days(metadata.created_at@, now) matches Some(days) ==> days >= 0
}

/// The parts `(n, d)` of one engagement share: `n / d` is the share.
fn share_parts(tally: Option<(usize, usize)>) -> (parts: (i128, i128))
    requires
        tally matches Some((resolved, total)) ==> resolved <= total <= ENGAGEMENT_LIST_MAX,
    ensures
        1 <= parts.1 <= ENGAGEMENT_LIST_MAX,
        0 <= parts.0 <= 50 * parts.1,
        ratio_of(parts.0 as int, parts.1 as int) == engagement_share(
            match tally {
                None => None,
                Some((resolved, total)) => Some((resolved as int, total as int)),
            },
        ),
{
    match tally {
        None => {
            proof {
                lemma_ratio_whole(25);
            }
            (25, 1)
        },
        Some((resolved, total)) => {
            if total == 0 {
                proof {
                    lemma_ratio_whole(25);
                }
                (25, 1)
            } else {
                proof {
                    lemma_share(resolved as int, total as int);
                }
                (resolved as i128 * 50, total as i128)
            }
        },
    }
}

/// Scores repositories. Holds the token with which the caller fetches the
/// signals; the scoring itself reads nothing but its arguments.
pub struct GemAnalyzer {
    github_token: String,
}

impl GemAnalyzer {
    /// The token that the analyzer was made with.
    pub closed spec fn token(&self) -> Seq<char> {
        self.github_token@
    }

    /// An analyzer for the forge that `github_token` gives access to.
    pub fn new(github_token: String) -> (analyzer: GemAnalyzer)
        ensures
            analyzer.token() == github_token@,
    {
        GemAnalyzer { github_token }
    }

    /// The token with which to fetch the signals.
    pub fn github_token(&self) -> (token: &String)
        ensures
            token@ == self.token(),
    {
        &self.github_token
    }

    /// Gathers the analyses of the candidates that were analysed in
    /// parallel: one outcome for each candidate, in the order of the
    /// candidates, `None` where the analysis could not be made. Such a
    /// candidate is left out; the analyses of the others are handed on as
    /// they are and in their order.
    pub fn analyze_repos_parallel(&self, outcomes: Vec<Option<RepoAnalysis>>) -> (analyses: Vec<
        RepoAnalysis,
    >)
        ensures
            analyses@ == completed(outcomes@),
            analyses@.len() == outcomes@.len() - failure_count(outcomes@),
    {
        gather_completed(outcomes)
    }

    /// Scores one repository: the four factors, their weighted total, and
    /// the recommendation that follows from the total before rounding. The
    /// scores are kept rounded to two places. Every score is at most 100,
    /// and none is below 0 unless stars, forks or age are. There is no
    /// analysis where a list of issues or of pull requests is longer than
    /// [`ENGAGEMENT_LIST_MAX`].
    pub fn analyze_single_repo(
        &self,
        repo: String,
        metadata: Metadata,
        signals: &Signals,
        now: &Timestamp,
    ) -> (outcome: Option<RepoAnalysis>)
        ensures
            outcome is Some <==> signals_in_reach(*signals),
            outcome matches Some(analysis) ==> {
                &&& analysis.repo == repo
                &&& analysis.metadata == metadata
                &&& analysis.ai_review is None
                &&& analysis.scores.ai_code_quality is None
                &&& analysis.scores.commit_activity.value() == round_to_hundredths(
                    commit_activity_value(signals.commits, *now),
                )
                &&& analysis.scores.code_quality.value() == round_to_hundredths(
                    code_quality_value(signals.contents),
                )
                &&& analysis.scores.developer_engagement.value() == round_to_hundredths(
                    developer_engagement_value(signals.issues, signals.pull_requests),
                )
                &&& analysis.scores.project_maturity.value() == round_to_hundredths(
                    repository_maturity(metadata, *now),
                )
                &&& analysis.total_score.value() == round_to_hundredths(
                    analysis_total(metadata, *signals, *now),
                )
                &&& analysis.recommendation == recommendation_for(
                    analysis_total(metadata, *signals, *now),
                )
                &&& analysis.priority == priority_of(analysis.recommendation)
                &&& analysis.wf()
                &&& 0real <= analysis.scores.commit_activity.value() <= 100real
                &&& 0real <= analysis.scores.code_quality.value() <= 100real
                &&& 0real <= analysis.scores.developer_engagement.value() <= 100real
                &&& analysis.scores.project_maturity.value() <= 100real
                &&& analysis_total(metadata, *signals, *now) <= 100real
                &&& analysis.total_score.value() <= 100real
                &&& maturity_inputs_non_negative(metadata, *now) ==> {
                    &&& 0real <= analysis.scores.project_maturity.value()
                    &&& 0real <= analysis_total(metadata, *signals, *now)
                    &&& 0real <= analysis.total_score.value()
                }
            },
    {
        if !Self::list_in_reach(&signals.issues) || !Self::list_in_reach(&signals.pull_requests) {
            return None;
        }
        let commit = self.analyze_commit_activity(&signals.commits, now);
        let quality = self.analyze_code_quality(&signals.contents);
        let engagement = self.analyze_developer_engagement(
            &signals.issues,
            &signals.pull_requests,
        );
        let maturity = self.calculate_maturity_score(&metadata, now);
        proof {
            lemma_ratio_at_least(commit.numer(), commit.denom(), 0);
            lemma_ratio_at_most(commit.numer(), commit.denom(), 100);
            lemma_ratio_at_least(quality.numer(), quality.denom(), 0);
            lemma_ratio_at_most(quality.numer(), quality.denom(), 100);
            lemma_ratio_at_least(engagement.numer(), engagement.denom(), 0);
            lemma_ratio_at_most(engagement.numer(), engagement.denom(), 100);
            assert(20 * (commit.denom() * quality.denom() * engagement.denom()
                * maturity.denom()) == 438000 * engagement.denom()) by (nonlinear_arith)
                requires
                    commit.denom() == 3,
                    quality.denom() == 1,
                    maturity.denom() == 7300,
            ;
        }
        let total = weighted_total(&commit, &quality, &engagement, &maturity);
        proof {
            lemma_total_in_range(commit, quality, engagement, maturity, total);
        }
        let recommendation = Recommendation::for_total(&total);
        let priority = recommendation.priority();
        Some(
            RepoAnalysis {
                repo,
                total_score: rounded(&total),
                recommendation,
                priority,
                scores: Scores {
                    commit_activity: rounded(&commit),
                    code_quality: rounded(&quality),
                    developer_engagement: rounded(&engagement),
                    project_maturity: rounded(&maturity),
                    ai_code_quality: None,
                },
                ai_review: None,
                metadata,
            },
        )
    }

    /// Whether a list, where there is one, is short enough to score.
    fn list_in_reach<T>(list: &Option<Vec<T>>) -> (b: bool)
        ensures
            b == (list matches Some(items) ==> items@.len() <= ENGAGEMENT_LIST_MAX),
    {
        match list {
            Some(items) => items.len() <= ENGAGEMENT_LIST_MAX,
            None => true,
        }
    }

    /// Factor 1, commit activity: how many of the latest commits are recent.
    pub fn analyze_commit_activity(&self, commits: &Option<Vec<Commit>>, now: &Timestamp) -> (score:
        Ratio)
        ensures
            score.value() == commit_activity_value(*commits, *now),
            0real <= score.value() <= 100real,
            score.wf(),
            score.denom() == 3,
    {
        let thirds: i128 = match commits {
            None => 150,
            Some(list) => {
                if list.len() == 0 {
                    60
                } else {
                    let recent = count_recent(list, now);
                    if recent >= VERY_ACTIVE_COMMITS {
                        300
                    } else {
                        recent as i128 * 10
                    }
                }
            },
        };
        proof {
            lemma_ratio_times_denom(thirds as int, 3);
        }
        Ratio::of(thirds, 3)
    }

    /// Factor 2, code quality: what the top-level directory shows of the
    /// care taken with the project.
    pub fn analyze_code_quality(&self, contents: &Option<Vec<RepoContents>>) -> (score: Ratio)
        ensures
            score.value() == code_quality_value(*contents),
            50real <= score.value() <= 100real,
            score.wf(),
            score.denom() == 1,
    {
        let list = match contents {
            None => {
                return Ratio::whole(50);
            },
            Some(list) => list,
        };
        let readme_name = chars_of("readme.md");
        let license_name = chars_of("license");
        let test_word = chars_of("test");
        let github_name = chars_of(".github");
        let dir_type = chars_of("dir");
        let mut readme = false;
        let mut license = false;
        let mut tests = false;
        let mut github = false;
        let mut i: usize = 0;
        while i < list.len()
            invariant
                i <= list@.len(),
                readme_name@ == "readme.md"@,
                license_name@ == "license"@,
                test_word@ == "test"@,
                github_name@ == ".github"@,
                dir_type@ == "dir"@,
                readme == has_readme(list@, i as int),
                license == has_license(list@, i as int),
                tests == has_tests(list@, i as int),
                github == has_github_dir(list@, i as int),
            decreases list@.len() - i,
        {
            let entry = &list[i];
            let lower = lowercase_chars(entry.name.as_str());
            let entry_readme = same_chars(&lower, &readme_name);
            let entry_license = same_chars(&lower, &license_name);
            let entry_test = contains(&lower, &test_word);
            let entry_github = same_chars(&chars_of(entry.name.as_str()), &github_name)
                && same_chars(&chars_of(entry.item_type.as_str()), &dir_type);
            assert(entry_readme == is_readme(list@[i as int]));
            assert(entry_license == is_license(list@[i as int]));
            assert(entry_test == is_test_entry(list@[i as int]));
            assert(entry_github == is_github_dir(list@[i as int]));
            readme = readme || entry_readme;
            license = license || entry_license;
            tests = tests || entry_test;
            github = github || entry_github;
            i = i + 1;
        }
        let mut points: i64 = 50;
        if readme {
            points = points + 15;
        }
        if license {
            points = points + 10;
        }
        if tests {
            points = points + 15;
        }
        if github {
            points = points + 10;
        }
        assert(points == code_quality_points(list@));
        Ratio::whole(points)
    }

    /// Factor 3, developer engagement: how much of what was opened has been
    /// resolved. Closed issues and merged pull requests each give up to 50
    /// points; a list that could not be fetched, or is empty, gives 25.
    pub fn analyze_developer_engagement(
        &self,
        issues: &Option<Vec<Issue>>,
        pulls: &Option<Vec<PullRequest>>,
    ) -> (score: Ratio)
        requires
            issues matches Some(list) ==> list@.len() <= ENGAGEMENT_LIST_MAX,
            pulls matches Some(list) ==> list@.len() <= ENGAGEMENT_LIST_MAX,
        ensures
            score.value() == developer_engagement_value(*issues, *pulls),
            0real <= score.value() <= 100real,
            score.wf(),
            score.denom() <= ENGAGEMENT_DEN_MAX,
    {
        let issue_counts = match issues {
            None => None,
            Some(list) => Some((count_closed(list), list.len())),
        };
        let pull_counts = match pulls {
            None => None,
            Some(list) => Some((count_merged(list), list.len())),
        };
        let (a, b) = share_parts(issue_counts);
        let (c, d) = share_parts(pull_counts);
        proof {
            lemma_ratio_sum(a as int, b as int, c as int, d as int);
            assert(b * d <= ENGAGEMENT_LIST_MAX * ENGAGEMENT_LIST_MAX && a * d <= 50
                * ENGAGEMENT_LIST_MAX * ENGAGEMENT_LIST_MAX && c * b <= 50 * ENGAGEMENT_LIST_MAX
                * ENGAGEMENT_LIST_MAX && a * d >= 0 && c * b >= 0 && a * d + c * b <= 100 * (b
                * d)) by (nonlinear_arith)
                requires
                    1 <= b <= ENGAGEMENT_LIST_MAX,
                    1 <= d <= ENGAGEMENT_LIST_MAX,
                    0 <= a <= 50 * b,
                    0 <= c <= 50 * d,
            ;
            lemma_ratio_at_least(a * d + c * b, b * d, 0);
            lemma_ratio_at_most(a * d + c * b, b * d, 100);
        }
        Ratio::of(a * d + c * b, b * d)
    }

    /// Factor 4, project maturity: age, stars and forks of the repository.
    /// A creation date that cannot be read gives no points for age.
    pub fn calculate_maturity_score(&self, metadata: &Metadata, now: &Timestamp) -> (score: Ratio)
        ensures
            score.value() == repository_maturity(*metadata, *now),
            score.value() <= 100real,
            maturity_inputs_non_negative(*metadata, *now) ==> 0real <= score.value(),
            score.wf(),
            score.denom() == MATURITY_DEN,
            -0x8000_0000 * MATURITY_DEN <= score.numer() <= 100 * MATURITY_DEN,
    {
        let age_days = match Timestamp::parse(metadata.created_at.as_str()) {
            Some(created) => Some(now.days_since(&created)),
            None => None,
        };
        Self::maturity_of(age_days, metadata.stars, metadata.forks)
    }

    /// The maturity score for an age in days and numbers of stars and forks.
    /// It is at most 100, and not below 0 unless one of the three is.
    pub fn maturity_of(age_days: Option<i64>, stars: i32, forks: i32) -> (score: Ratio)
        ensures
            score.value() == maturity_value(
                match age_days {
                    Some(days) => Some(days as int),
                    None => None,
                },
                stars as int,
                forks as int,
            ),
            score.value() <= 100real,
            (age_days matches Some(days) ==> days >= 0) && stars >= 0 && forks >= 0 ==> 0real
                <= score.value(),
            score.wf(),
            score.denom() == MATURITY_DEN,
            score.numer() <= 100 * MATURITY_DEN,
            (age_days matches Some(days) ==> days > -240_000_000) ==> -0x8000_0000
                * MATURITY_DEN <= score.numer(),
    {
        let age_part: i128 = match age_days {
            None => 0,
            Some(days) => if days >= 365 {
                219000
            } else {
                600 * (days as i128)
            },
        };
        let star_part: i128 = if stars >= 500 {
            255500
        } else {
            511 * (stars as i128)
        };
        let fork_part: i128 = if forks >= 100 {
            255500
        } else {
            2555 * (forks as i128)
        };
        let sum: i128 = age_part + star_part + fork_part;
        let capped: i128 = if sum >= 730000 {
            730000
        } else {
            sum
        };
        proof {
            lemma_ratio_times_denom(capped as int, 7300);
        }
        Ratio::of(capped, MATURITY_DEN)
    }
}

} // verus!
