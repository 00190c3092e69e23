//! Picking hidden gems: projects of good quality that few have noticed.

use crate::factors::age_in_days;
use crate::text::{
    any_occurs_in, append_decimal, chars_of, contains_any, decimal_text, joined_by_blank,
    lowercase_chars, lowercase_of, same_chars, words_of,
};
use crate::time::Timestamp;
use vstd::prelude::*;
use vstd::string::StringExecFns;
use vstd::utf8::encode_utf8;

verus! {

/// The licence of a repository.
#[derive(Clone, Debug, PartialEq, Eq)]
pub struct License {
    /// The name of the licence in full.
    pub name: String,
    /// Its SPDX identifier.
    pub spdx_id: String,
}

/// A repository as the search of the forge lists it.
#[derive(Clone, Debug, PartialEq, Eq)]
pub struct HiddenGemRepo {
    /// The name of the repository.
    pub name: String,
    /// Owner and name, as `owner/name`.
    pub full_name: String,
    /// Where to find it.
    pub html_url: String,
    /// What the owner says it is.
    pub description: Option<String>,
    /// The number of stars.
    pub stars: i32,
    /// The number of forks.
    pub forks: i32,
    /// The main programming language.
    pub language: Option<String>,
    /// The licence.
    pub license: Option<License>,
    /// When it was created.
    pub created_at: String,
    /// When it was last changed.
    pub updated_at: String,
    /// When it was last pushed to, as an RFC 3339 date and time.
    pub pushed_at: String,
    /// Its size in kilobytes.
    pub size: i32,
    /// The number of open issues.
    pub open_issues: i32,
    /// Whether it has a wiki.
    pub has_wiki: bool,
    /// Whether it has pages.
    pub has_pages: bool,
    /// The topics it is filed under.
    pub topics: Vec<String>,
}

/// The ranges of stars and forks that a tier of the search covers.
#[derive(Clone, Copy, Debug, PartialEq, Eq, Structural)]
pub struct TierBounds {
    /// Least number of stars.
    pub min_stars: u32,
    /// Greatest number of stars.
    pub max_stars: u32,
    /// Least number of forks.
    pub min_forks: u32,
    /// Greatest number of forks.
    pub max_forks: u32,
}

/// The bounds of the tier named `tier`: `micro`, `small` or `medium`. Any
/// other name stands for `small`.
pub open spec fn tier_bounds_of(tier: Seq<char>) -> TierBounds {
    if tier == "micro"@ {
        TierBounds { min_stars: 10, max_stars: 100, min_forks: 5, max_forks: 50 }
    } else if tier == "medium"@ {
        TierBounds { min_stars: 500, max_stars: 2000, min_forks: 20, max_forks: 200 }
    } else {
        TierBounds { min_stars: 100, max_stars: 500, min_forks: 10, max_forks: 100 }
    }
}

/// The query that searches the forge for the repositories of a tier.
pub open spec fn search_query_text(bounds: TierBounds) -> Seq<char> {
    "stars:"@ + decimal_text(bounds.min_stars as int) + ".."@ + decimal_text(
        bounds.max_stars as int,
    ) + "+forks:"@ + decimal_text(bounds.min_forks as int) + ".."@ + decimal_text(
        bounds.max_forks as int,
    ) + "+pushed:>2024-06-01+is:public"@
}

/// The address of one page of the search for `query`.
pub open spec fn search_page_url(query: Seq<char>, page: int) -> Seq<char> {
    "https://api.github.com/search/repositories?q="@ + query
        + "&sort=updated&order=desc&per_page=20&page="@ + decimal_text(page)
}

/// The bounds of the tier named `tier`.
pub fn tier_bounds(tier: &str) -> (bounds: TierBounds)
    ensures
        bounds == tier_bounds_of(tier@),
{
    let name = chars_of(tier);
    if same_chars(&name, &chars_of("micro")) {
        TierBounds { min_stars: 10, max_stars: 100, min_forks: 5, max_forks: 50 }
    } else if same_chars(&name, &chars_of("medium")) {
        TierBounds { min_stars: 500, max_stars: 2000, min_forks: 20, max_forks: 200 }
    } else {
        TierBounds { min_stars: 100, max_stars: 500, min_forks: 10, max_forks: 100 }
    }
}

impl TierBounds {
    /// The query that searches the forge for the repositories within these
    /// bounds that were pushed to of late and are public.
    pub fn search_query(&self) -> (query: String)
        ensures
            query@ == search_query_text(*self),
    {
        let mut query = String::from_str("stars:");
        append_decimal(&mut query, self.min_stars as i64);
        query.append("..");
        append_decimal(&mut query, self.max_stars as i64);
        query.append("+forks:");
        append_decimal(&mut query, self.min_forks as i64);
        query.append("..");
        append_decimal(&mut query, self.max_forks as i64);
        query.append("+pushed:>2024-06-01+is:public");
        query
    }
}

/// Why a repository could not be judged.
#[derive(Clone, Copy, Debug, PartialEq, Eq, Structural)]
pub enum GemError {
    /// The date of the last push cannot be read.
    UnreadablePushDate,
}

/// Shortest description, in bytes, of a hidden gem.
pub const DESCRIPTION_BYTES_MIN: usize = 30;

/// A description longer than this, in bytes, counts as a sign of quality.
pub const DESCRIPTION_BYTES_GOOD: usize = 80;

/// Smallest size, in kilobytes, of a hidden gem.
pub const SIZE_MIN: i32 = 50;

/// Most days since the last push of a hidden gem.
pub const PUSH_DAYS_MAX: i64 = 180;

/// Fewest points for signs of quality of a hidden gem.
pub const QUALITY_POINTS_MIN: i32 = 3;

/// Most hidden gems that one scan gathers.
pub const MAX_PROJECTS: usize = 5;

/// Most pages of the search that one scan reads.
pub const MAX_PAGES: u32 = 5;

/// Words that mark a project as unfinished or as a mere starting point.
pub open spec fn red_flags() -> Seq<Seq<char>> {
    seq![
        "alpha"@,
        "beta"@,
        "test"@,
        "experimental"@,
        "wip"@,
        "work in progress"@,
        "under development"@,
        "prototype"@,
        "template"@,
        "boilerplate"@,
        "starter"@,
    ]
}

/// Name and description as the words are looked for in them: in lower case,
/// with a blank between.
pub open spec fn listing_text(name: Seq<char>, description: Seq<char>) -> Seq<char> {
    lowercase_of(name) + seq![' '] + lowercase_of(description)
}

/// The length of `text` in bytes of UTF-8.
pub open spec fn byte_len(text: Seq<char>) -> nat {
    encode_utf8(text).len()
}

/// Whether the forks are more than a twentieth and less than three tenths of
/// the stars. Without stars there is no such ratio.
pub open spec fn is_fork_ratio_balanced(forks: int, stars: int) -> bool {
    &&& stars != 0
    &&& 1real / 20real < forks as real / (stars as real)
    &&& forks as real / (stars as real) < 3real / 10real
}

/// The points for signs of quality, two for each: topics, a wiki or pages, a
/// long description, a middling size, a balanced ratio of forks to stars.
pub open spec fn quality_indicators(repo: HiddenGemRepo) -> int {
    (if repo.topics@.len() > 0 {
        2int
    } else {
        0int
    }) + (if repo.has_wiki || repo.has_pages {
        2int
    } else {
        0int
    }) + (if repo.description matches Some(text) && byte_len(text@) > DESCRIPTION_BYTES_GOOD {
        2int
    } else {
        0int
    }) + (if 200 < repo.size < 100000 {
        2int
    } else {
        0int
    }) + (if is_fork_ratio_balanced(repo.forks as int, repo.stars as int) {
        2int
    } else {
        0int
    })
}

/// Whether `repo` is a hidden gem at `now`. It is not where the description
/// is missing or short, name or description hold a red flag, licence or
/// language are missing, the repository is small, the last push is long ago,
/// or the signs of quality are few. Where all but the last two are in order
/// and the date of the last push cannot be read, there is no verdict.
pub open spec fn hidden_gem_verdict(repo: HiddenGemRepo, now: Timestamp) -> Result<bool, GemError> {
    match repo.description {
        None => Ok(false),
        Some(description) => {
            if byte_len(description@) < DESCRIPTION_BYTES_MIN {
                Ok(false)
            } else if any_occurs_in(red_flags(), listing_text(repo.name@, description@)) {
                Ok(false)
            } else if repo.license is None || repo.language is None || repo.size < SIZE_MIN {
                Ok(false)
            } else {
                match age_in_days(repo.pushed_at@, now) {
                    None => Err(GemError::UnreadablePushDate),
                    Some(days) => Ok(
                        days <= PUSH_DAYS_MAX && quality_indicators(repo) >= QUALITY_POINTS_MIN,
                    ),
                }
            }
        },
    }
}

/// A ratio of integers against a ratio of small numbers, by cross
/// multiplication.
proof fn lemma_fork_ratio(forks: int, stars: int)
    requires
        stars != 0,
    ensures
        stars > 0 ==> (is_fork_ratio_balanced(forks, stars) <==> 20 * forks > stars && 10 * forks
            < 3 * stars),
        stars < 0 ==> (is_fork_ratio_balanced(forks, stars) <==> 20 * forks < stars && 10 * forks
            > 3 * stars),
{
    if stars > 0 {
        assert((1real / 20real < forks as real / (stars as real) <==> 20 * forks > stars) && (
        forks as real / (stars as real) < 3real / 10real <==> 10 * forks < 3 * stars))
            by (nonlinear_arith)
            requires
                stars > 0,
        ;
    } else {
        assert((1real / 20real < forks as real / (stars as real) <==> 20 * forks < stars) && (
        forks as real / (stars as real) < 3real / 10real <==> 10 * forks > 3 * stars))
            by (nonlinear_arith)
            requires
                stars < 0,
        ;
    }
}

/// The gems that are found after a page of the search is gone through:
/// `found`, and behind it the hidden gems among `items`, in their order, until
/// there are [`MAX_PROJECTS`] of them. A repository without a verdict ends
/// the scan with its error.
pub open spec fn gems_after_page(
    found: Seq<HiddenGemRepo>,
    items: Seq<HiddenGemRepo>,
    now: Timestamp,
) -> Result<Seq<HiddenGemRepo>, GemError>
    decreases items.len(),
{
    if items.len() == 0 {
        Ok(found)
    } else {
        match hidden_gem_verdict(items.first(), now) {
            Err(e) => Err(e),
            Ok(false) => gems_after_page(found, items.drop_first(), now),
            Ok(true) => if found.len() + 1 >= MAX_PROJECTS {
                Ok(found.push(items.first()))
            } else {
                gems_after_page(found.push(items.first()), items.drop_first(), now)
            },
        }
    }
}

/// How far a scan of a tier has come: the gems found, and the page of the
/// search that is read next.
pub struct TierScan {
    found: Vec<HiddenGemRepo>,
    page: u32,
}

impl TierScan {
    #[verifier::type_invariant]
    spec fn inv(self) -> bool {
        1 <= self.page <= MAX_PAGES + 1
    }

    /// The gems found so far.
    pub closed spec fn found(self) -> Seq<HiddenGemRepo> {
        self.found@
    }

    /// The page of the search that is read next.
    pub closed spec fn page(self) -> int {
        self.page as int
    }

    /// Whether the scan goes on: fewer than [`MAX_PROJECTS`] gems are found,
    /// and no more than [`MAX_PAGES`] pages are read.
    pub open spec fn wants_page(self) -> bool {
        self.found().len() < MAX_PROJECTS && self.page() <= MAX_PAGES
    }

    /// A scan at its start: nothing found, the first page to read.
    pub fn begin() -> (scan: TierScan)
        ensures
            scan.found() == Seq::<HiddenGemRepo>::empty(),
            scan.page() == 1,
    {
        TierScan { found: Vec::new(), page: 1 }
    }

    /// The page to fetch next, or `None` where the scan is over.
    pub fn next_page(&self) -> (page: Option<u32>)
        ensures
            page is Some <==> self.wants_page(),
            page matches Some(number) ==> number == self.page(),
    {
        if self.found.len() < MAX_PROJECTS && self.page <= MAX_PAGES {
            Some(self.page)
        } else {
            None
        }
    }

    /// The gems found, at the end of the scan.
    pub fn into_found(self) -> (found: Vec<HiddenGemRepo>)
        ensures
            found@ == self.found(),
    {
        self.found
    }
}

/// Looks for hidden gems. Holds the token with which the caller searches
/// the forge.
pub struct HiddenGemsScanner {
    github_token: String,
}

impl HiddenGemsScanner {
    /// The token that the scanner was made with.
    pub closed spec fn token(&self) -> Seq<char> {
        self.github_token@
    }

    /// A scanner for the forge that `github_token` gives access to.
    pub fn new(github_token: String) -> (scanner: HiddenGemsScanner)
        ensures
            scanner.token() == github_token@,
    {
        HiddenGemsScanner { github_token }
    }

    /// The token with which to search.
    pub fn github_token(&self) -> (token: &String)
        ensures
            token@ == self.token(),
    {
        &self.github_token
    }

    /// The address of page `page` of the search for the tier named `tier`.
    pub fn search_url(&self, tier: &str, page: u32) -> (url: String)
        ensures
            url@ == search_page_url(search_query_text(tier_bounds_of(tier@)), page as int),
    {
        let query = tier_bounds(tier).search_query();
        let mut url = String::from_str("https://api.github.com/search/repositories?q=");
        url.append(query.as_str());
        url.append("&sort=updated&order=desc&per_page=20&page=");
        append_decimal(&mut url, page as i64);
        url
    }

    /// One step of the scan of a tier: goes through the repositories `items`
    /// of the page that was fetched, keeps the hidden gems among them until
    /// there are [`MAX_PROJECTS`], and turns to the next page. A scan that
    /// is over stays as it is. A repository without a verdict ends the scan
    /// with its error.
    pub fn scan_tier(&self, scan: TierScan, items: Vec<HiddenGemRepo>, now: &Timestamp) -> (next:
        Result<TierScan, GemError>)
        ensures
            !scan.wants_page() ==> next == Ok::<TierScan, GemError>(scan),
            scan.wants_page() ==> match gems_after_page(scan.found(), items@, *now) {
                Ok(found) => next matches Ok(after) && after.found() == found && after.page()
                    == scan.page() + 1,
                Err(e) => next == Err::<TierScan, GemError>(e),
            },
    {
        if scan.next_page().is_none() {
            return Ok(scan);
        }
        proof {
            use_type_invariant(&scan);
        }
        let ghost start = scan.found();
        let TierScan { found, page } = scan;
        let mut found = found;
        let mut queue = items;
        while queue.len() > 0
            invariant
                scan.wants_page(),
                start == scan.found(),
                page == scan.page(),
                gems_after_page(start, items@, *now) == gems_after_page(found@, queue@, *now),
                found@.len() < MAX_PROJECTS,
                1 <= page <= MAX_PAGES,
            decreases queue@.len(),
        {
            let ghost rest = queue@;
            let repo = queue.remove(0);
            assert(queue@ =~= rest.drop_first());
            match self.is_valid_hidden_gem(&repo, now) {
                Err(e) => {
                    return Err(e);
                },
                Ok(false) => {},
                Ok(true) => {
                    found.push(repo);
                    if found.len() >= MAX_PROJECTS {
                        return Ok(TierScan { found, page: page + 1 });
                    }
                },
            }
        }
        Ok(TierScan { found, page: page + 1 })
    }

    /// Whether the forks are more than a twentieth and less than three
    /// tenths of the stars.
    pub fn fork_ratio_balanced(forks: i32, stars: i32) -> (b: bool)
        ensures
            b == is_fork_ratio_balanced(forks as int, stars as int),
    {
        if stars == 0 {
            return false;
        }
        proof {
            lemma_fork_ratio(forks as int, stars as int);
        }
        let f: i64 = forks as i64;
        let s: i64 = stars as i64;
        if stars > 0 {
            20 * f > s && 10 * f < 3 * s
        } else {
            20 * f < s && 10 * f > 3 * s
        }
    }

    /// The points for signs of quality of `repo`, from 0 to 10.
    pub fn calculate_quality_indicators(&self, repo: &HiddenGemRepo) -> (points: i32)
        ensures
            points == quality_indicators(*repo),
            0 <= points <= 10,
    {
        let mut points: i32 = 0;
        if repo.topics.len() > 0 {
            points = points + 2;
        }
        if repo.has_wiki || repo.has_pages {
            points = points + 2;
        }
        let long_description = match &repo.description {
            Some(text) => text.as_str().as_bytes().len() > DESCRIPTION_BYTES_GOOD,
            None => false,
        };
        if long_description {
            points = points + 2;
        }
        if repo.size > 200 && repo.size < 100000 {
            points = points + 2;
        }
        if Self::fork_ratio_balanced(repo.forks, repo.stars) {
            points = points + 2;
        }
        points
    }

    /// Whether `repo` is a hidden gem at `now`.
    pub fn is_valid_hidden_gem(&self, repo: &HiddenGemRepo, now: &Timestamp) -> (verdict: Result<
        bool,
        GemError,
    >)
        ensures
            verdict == hidden_gem_verdict(*repo, *now),
    {
        let description = match &repo.description {
            Some(text) => text,
            None => {
                return Ok(false);
            },
        };
        if description.as_str().as_bytes().len() < DESCRIPTION_BYTES_MIN {
            return Ok(false);
        }
        let flags = words_of(
            &vec![
                "alpha",
                "beta",
                "test",
                "experimental",
                "wip",
                "work in progress",
                "under development",
                "prototype",
                "template",
                "boilerplate",
                "starter",
            ],
        );
        assert(crate::text::word_texts(flags@) =~= red_flags());
        let text = joined_by_blank(
            lowercase_chars(repo.name.as_str()),
            &lowercase_chars(description.as_str()),
        );
        if contains_any(&text, &flags) {
            return Ok(false);
        }
        if repo.license.is_none() || repo.language.is_none() || repo.size < SIZE_MIN {
            return Ok(false);
        }
        let pushed = match Timestamp::parse(repo.pushed_at.as_str()) {
            Some(pushed) => pushed,
            None => {
                return Err(GemError::UnreadablePushDate);
            },
        };
        if now.days_since(&pushed) > PUSH_DAYS_MAX {
            return Ok(false);
        }
        Ok(self.calculate_quality_indicators(repo) >= QUALITY_POINTS_MIN)
    }
}

} // verus!
