//! What the four factor scores are.
//!
//! Each factor turns one signal about a repository into a score between 0
//! and 100. The definitions here are exact: they speak of real numbers, and
//! the scorers of [`crate::analyzer::GemAnalyzer`] give ratios of just these
//! values.

use crate::score::{div_towards_zero, min_real, ratio_of};
use crate::text::{lowercase_of, occurs_in};
use crate::time::{instant_of, Timestamp, NANOS_PER_DAY};
use vstd::prelude::*;

verus! {

/// A commit of a repository.
#[derive(Clone, Debug, PartialEq, Eq)]
pub struct Commit {
    /// When the author made the commit, as an RFC 3339 date and time.
    pub author_date: String,
}

/// An entry of the top-level directory of a repository.
#[derive(Clone, Debug, PartialEq, Eq)]
pub struct RepoContents {
    /// The name of the entry.
    pub name: String,
    /// What the entry is: `"file"`, `"dir"`, and so on.
    pub item_type: String,
}

/// An issue of a repository.
#[derive(Clone, Debug, PartialEq, Eq)]
pub struct Issue {
    /// When the issue was closed, if it was.
    pub closed_at: Option<String>,
}

/// A pull request of a repository.
#[derive(Clone, Debug, PartialEq, Eq)]
pub struct PullRequest {
    /// When the pull request was merged, if it was.
    pub merged_at: Option<String>,
}

/// `points` where `present` holds, nothing otherwise.
pub open spec fn points_if(present: bool, points: int) -> int {
    if present {
        points
    } else {
        0
    }
}

/// Days within which a commit counts as recent.
pub const RECENT_DAYS: u16 = 90;

/// Recent commits that give the full score of 100.
pub const VERY_ACTIVE_COMMITS: usize = 30;

/// Whether a commit dated `date` is recent at `now`: the date can be read,
/// and less than [`RECENT_DAYS`] days have passed since.
pub open spec fn is_recent(date: Seq<char>, now: Timestamp) -> bool {
    match Timestamp::parsed(date) {
        Some((secs, nanos)) => now.instant() - instant_of(secs, nanos) < RECENT_DAYS
            * NANOS_PER_DAY,
        None => false,
    }
}

/// How many of the first `upto` commits are recent at `now`.
pub open spec fn recent_among(commits: Seq<Commit>, now: Timestamp, upto: int) -> int
    decreases upto,
{
    if upto <= 0 {
        0
    } else {
        recent_among(commits, now, upto - 1) + points_if(
            is_recent(commits[upto - 1].author_date@, now),
            1,
        )
    }
}

/// The recent commits among `commits`, counted.
pub open spec fn recent_count(commits: Seq<Commit>, now: Timestamp) -> int {
    recent_among(commits, now, commits.len() as int)
}

/// The commit-activity score: 50 where the commits could not be fetched, 20
/// where there are none, otherwise the recent commits as a part of
/// [`VERY_ACTIVE_COMMITS`], on a scale of 100 and capped there.
pub open spec fn commit_activity_value(commits: Option<Vec<Commit>>, now: Timestamp) -> real {
    match commits {
        None => 50real,
        Some(list) => if list@.len() == 0 {
            20real
        } else {
            min_real(100real, recent_count(list@, now) as real / 30real * 100real)
        },
    }
}

/// Whether the entry is a read-me file: its name is `readme.md` in any mix
/// of upper and lower case.
pub open spec fn is_readme(entry: RepoContents) -> bool {
    lowercase_of(entry.name@) == "readme.md"@
}

/// Whether the entry is a licence file: its name is `license` in any mix of
/// upper and lower case.
pub open spec fn is_license(entry: RepoContents) -> bool {
    lowercase_of(entry.name@) == "license"@
}

/// Whether the name of the entry holds `test`, in any mix of upper and lower
/// case.
pub open spec fn is_test_entry(entry: RepoContents) -> bool {
    occurs_in("test"@, lowercase_of(entry.name@))
}

/// Whether the entry is the directory `.github`.
pub open spec fn is_github_dir(entry: RepoContents) -> bool {
    entry.name@ == ".github"@ && entry.item_type@ == "dir"@
}

/// Whether one of the first `upto` entries is a read-me file.
pub open spec fn has_readme(contents: Seq<RepoContents>, upto: int) -> bool {
    exists|k: int| 0 <= k < upto && is_readme(#[trigger] contents[k])
}

/// Whether one of the first `upto` entries is a licence file.
pub open spec fn has_license(contents: Seq<RepoContents>, upto: int) -> bool {
    exists|k: int| 0 <= k < upto && is_license(#[trigger] contents[k])
}

/// Whether one of the first `upto` entries has `test` in its name.
pub open spec fn has_tests(contents: Seq<RepoContents>, upto: int) -> bool {
    exists|k: int| 0 <= k < upto && is_test_entry(#[trigger] contents[k])
}

/// Whether one of the first `upto` entries is the directory `.github`.
pub open spec fn has_github_dir(contents: Seq<RepoContents>, upto: int) -> bool {
    exists|k: int| 0 <= k < upto && is_github_dir(#[trigger] contents[k])
}

/// The points of the code-quality score for a directory listing: 50 to start
/// with, 15 for a read-me file, 10 for a licence, 15 for tests and 10 for a
/// `.github` directory.
pub open spec fn code_quality_points(contents: Seq<RepoContents>) -> int {
    let n = contents.len() as int;
    50 + points_if(has_readme(contents, n), 15) + points_if(has_license(contents, n), 10)
        + points_if(has_tests(contents, n), 15) + points_if(has_github_dir(contents, n), 10)
}

/// The code-quality score: 50 where the listing could not be fetched,
/// otherwise the points of the listing, capped at 100.
pub open spec fn code_quality_value(contents: Option<Vec<RepoContents>>) -> real {
    match contents {
        None => 50real,
        Some(list) => min_real(100real, code_quality_points(list@) as real),
    }
}

/// How many of the first `upto` issues are closed.
pub open spec fn closed_among(issues: Seq<Issue>, upto: int) -> int
    decreases upto,
{
    if upto <= 0 {
        0
    } else {
        closed_among(issues, upto - 1) + points_if(issues[upto - 1].closed_at is Some, 1)
    }
}

/// How many of the first `upto` pull requests are merged.
pub open spec fn merged_among(pulls: Seq<PullRequest>, upto: int) -> int
    decreases upto,
{
    if upto <= 0 {
        0
    } else {
        merged_among(pulls, upto - 1) + points_if(pulls[upto - 1].merged_at is Some, 1)
    }
}

/// The closed issues among `issues`, counted.
pub open spec fn closed_count(issues: Seq<Issue>) -> int {
    closed_among(issues, issues.len() as int)
}

/// The merged pull requests among `pulls`, counted.
pub open spec fn merged_count(pulls: Seq<PullRequest>) -> int {
    merged_among(pulls, pulls.len() as int)
}

/// One half of the engagement score: 25 where nothing is known (`tally` is
/// `None`, or nothing was listed), otherwise the resolved part of the whole,
/// on a scale of 50.
pub open spec fn engagement_share(tally: Option<(int, int)>) -> real {
    match tally {
        None => 25real,
        Some((resolved, total)) => if total == 0 {
            25real
        } else {
            min_real(50real, resolved as real / total as real * 50real)
        },
    }
}

/// The tally of a list of issues: how many are closed, and how many there are.
pub open spec fn issue_tally(issues: Option<Vec<Issue>>) -> Option<(int, int)> {
    match issues {
        None => None,
        Some(list) => Some((closed_count(list@), list@.len() as int)),
    }
}

/// The tally of a list of pull requests: how many are merged, and how many
/// there are.
pub open spec fn pull_tally(pulls: Option<Vec<PullRequest>>) -> Option<(int, int)> {
    match pulls {
        None => None,
        Some(list) => Some((merged_count(list@), list@.len() as int)),
    }
}

/// The developer-engagement score: the share of closed issues plus the share
/// of merged pull requests.
pub open spec fn developer_engagement_value(
    issues: Option<Vec<Issue>>,
    pulls: Option<Vec<PullRequest>>,
) -> real {
    engagement_share(issue_tally(issues)) + engagement_share(pull_tally(pulls))
}

/// The age in whole days, at `now`, of something created at `created_at`;
/// `None` where the date cannot be read. Negative where the date lies a day
/// or more after `now`.
pub open spec fn age_in_days(created_at: Seq<char>, now: Timestamp) -> Option<int> {
    match Timestamp::parsed(created_at) {
        Some((secs, nanos)) => Some(
            div_towards_zero(now.instant() - instant_of(secs, nanos), NANOS_PER_DAY as int),
        ),
        None => None,
    }
}

/// The part of the maturity score that age gives: 30 points for a year,
/// less in proportion for less, never more; nothing where the age is unknown.
pub open spec fn age_points(age_days: Option<int>) -> real {
    match age_days {
        Some(days) => min_real(30real, days as real / 365real * 30real),
        None => 0real,
    }
}

/// The part of the maturity score that stars give: 35 points for 500 stars,
/// less in proportion for fewer, never more.
pub open spec fn star_points(stars: int) -> real {
    min_real(35real, stars as real / 500real * 35real)
}

/// The part of the maturity score that forks give: 35 points for 100 forks,
/// less in proportion for fewer, never more.
pub open spec fn fork_points(forks: int) -> real {
    min_real(35real, forks as real / 100real * 35real)
}

/// The maturity score: the points for age, stars and forks, capped at 100.
pub open spec fn maturity_value(age_days: Option<int>, stars: int, forks: int) -> real {
    min_real(100real, age_points(age_days) + star_points(stars) + fork_points(forks))
}

/// Counts the commits that are recent at `now`.
pub(crate) fn count_recent(commits: &Vec<Commit>, now: &Timestamp) -> (recent: usize)
    ensures
        recent == recent_count(commits@, *now),
        recent <= commits@.len(),
{
    let mut recent: usize = 0;
    let mut i: usize = 0;
    while i < commits.len()
        invariant
            i <= commits@.len(),
            recent == recent_among(commits@, *now, i as int),
            recent <= i,
        decreases commits@.len() - i,
    {
        let is_recent_commit = match Timestamp::parse(commits[i].author_date.as_str()) {
            Some(date) => now.is_within_days(&date, RECENT_DAYS),
            None => false,
        };
        assert(is_recent_commit == is_recent(commits@[i as int].author_date@, *now));
        if is_recent_commit {
            recent = recent + 1;
        }
        i = i + 1;
    }
    recent
}

/// Counts the closed issues.
pub(crate) fn count_closed(issues: &Vec<Issue>) -> (closed: usize)
    ensures
        closed == closed_count(issues@),
        closed <= issues@.len(),
{
    let mut closed: usize = 0;
    let mut i: usize = 0;
    while i < issues.len()
        invariant
            i <= issues@.len(),
            closed == closed_among(issues@, i as int),
            closed <= i,
        decreases issues@.len() - i,
    {
        if issues[i].closed_at.is_some() {
            closed = closed + 1;
        }
        i = i + 1;
    }
    closed
}

/// Counts the merged pull requests.
pub(crate) fn count_merged(pulls: &Vec<PullRequest>) -> (merged: usize)
    ensures
        merged == merged_count(pulls@),
        merged <= pulls@.len(),
{
    let mut merged: usize = 0;
    let mut i: usize = 0;
    while i < pulls.len()
        invariant
            i <= pulls@.len(),
            merged == merged_among(pulls@, i as int),
            merged <= i,
        decreases pulls@.len() - i,
    {
        if pulls[i].merged_at.is_some() {
            merged = merged + 1;
        }
        i = i + 1;
    }
    merged
}

/// `n / d` times `d` is `n`.
pub proof fn lemma_ratio_times_denom(n: int, d: int)
    requires
        d > 0,
    ensures
        ratio_of(n, d) * (d as real) == n as real,
{
    assert(n as real / d as real * (d as real) == n as real) by (nonlinear_arith)
        requires
            d > 0,
    ;
}

/// The share of `resolved` in `total`, on a scale of 50, as a ratio.
pub proof fn lemma_share(resolved: int, total: int)
    requires
        0 <= resolved <= total,
        0 < total,
    ensures
        ratio_of(resolved * 50, total) == min_real(
            50real,
            resolved as real / total as real * 50real,
        ),
        0real <= ratio_of(resolved * 50, total) <= 50real,
{
    assert((resolved * 50) as real / total as real == resolved as real / total as real * 50real
        && 0real <= resolved as real / total as real * 50real <= 50real) by (nonlinear_arith)
        requires
            0 <= resolved <= total,
            0 < total,
    ;
}

/// The sum of two ratios as one ratio.
pub proof fn lemma_ratio_sum(a: int, b: int, c: int, d: int)
    requires
        b > 0,
        d > 0,
    ensures
        ratio_of(a * d + c * b, b * d) == ratio_of(a, b) + ratio_of(c, d),
        b * d > 0,
{
    assert((a * d + c * b) as real / (b * d) as real == a as real / b as real + c as real
        / d as real && b * d > 0) by (nonlinear_arith)
        requires
            b > 0,
            d > 0,
    ;
}

} // verus!
