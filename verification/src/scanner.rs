//! Picking well-kept repositories among those that were pushed to of late.

use crate::hidden_gems::{byte_len, listing_text, License};
use crate::text::{
    any_occurs_in, append_decimal, contains_any, decimal_text, joined_by_blank, lowercase_chars,
    word_texts, words_of,
};
use vstd::prelude::*;
use vstd::string::StringExecFns;

verus! {

/// A repository as the search of the forge lists it.
#[derive(Clone, Debug, PartialEq, Eq)]
pub struct GitHubRepo {
    /// Owner and name, as `owner/name`.
    pub full_name: String,
    /// The name of the repository.
    pub name: String,
    /// What the owner says it is.
    pub description: Option<String>,
    /// Where to find it.
    pub html_url: String,
    /// The number of stars.
    pub stargazers_count: u32,
    /// The number of forks.
    pub forks_count: u32,
    /// The number of open issues.
    pub open_issues_count: u32,
    /// The licence.
    pub license: Option<License>,
    /// Whether it is archived.
    pub archived: bool,
    /// Whether it is disabled.
    pub disabled: bool,
    /// When it was last pushed to, as an RFC 3339 date and time.
    pub pushed_at: String,
    /// The branch that is checked out by default.
    pub default_branch: String,
}

/// Shortest description, in bytes, of a repository that is taken.
pub const DESCRIPTION_BYTES_MIN: usize = 50;

/// Fewest stars of a repository that is taken.
pub const STARS_MIN: u32 = 200;

/// Fewest forks of a repository that is taken.
pub const FORKS_MIN: u32 = 20;

/// A read-me must be larger than this, in bytes.
pub const README_BYTES_MIN: u32 = 800;

/// Repositories that one scan looks for.
pub const MAX_VALID_REPOS: usize = 3;

/// Words that mark a project as a demonstration, an exercise or a starting
/// point.
pub open spec fn exclude_keywords() -> Seq<Seq<char>> {
    seq![
        "alpha"@,
        "beta"@,
        "test"@,
        "demo"@,
        "example"@,
        "tutorial"@,
        "course"@,
        "starter"@,
        "template"@,
        "playground"@,
        "boilerplate"@,
        "sample"@,
        "prototype"@,
        "learning"@,
        "practice"@,
        "homework"@,
    ]
}

/// Words that point to new ground or to careful engineering.
pub open spec fn innovation_keywords() -> Seq<Seq<char>> {
    seq![
        "ai"@,
        "ml"@,
        "machine learning"@,
        "deep learning"@,
        "llm"@,
        "gpt"@,
        "blockchain"@,
        "web3"@,
        "decentralized"@,
        "distributed"@,
        "real-time"@,
        "performance"@,
        "optimization"@,
        "scalable"@,
        "compiler"@,
        "framework"@,
        "engine"@,
        "runtime"@,
        "neural"@,
        "model"@,
        "inference"@,
        "training"@,
        "cloud-native"@,
        "serverless"@,
        "microservices"@,
        "quantum"@,
        "edge computing"@,
        "iot"@,
        "autonomous"@,
        "zero-knowledge"@,
        "privacy-preserving"@,
        "secure"@,
        "rust"@,
        "go"@,
        "typescript"@,
        "python"@,
        "webassembly"@,
        "wasm"@,
    ]
}

/// Whether what the listing says of `repo` is in order: a description of
/// [`DESCRIPTION_BYTES_MIN`] bytes or more, a licence, neither archived nor
/// disabled, stars and forks enough, and none of the
/// [`exclude_keywords`] in name or description.
pub open spec fn passes_listing_checks(repo: GitHubRepo) -> bool {
    &&& repo.description matches Some(description)
    &&& byte_len(description@) >= DESCRIPTION_BYTES_MIN
    &&& repo.license is Some
    &&& !repo.archived
    &&& !repo.disabled
    &&& repo.stargazers_count >= STARS_MIN
    &&& repo.forks_count >= FORKS_MIN
    &&& !any_occurs_in(exclude_keywords(), listing_text(repo.name@, description@))
}

/// Whether name or description of `repo` hold one of the
/// [`innovation_keywords`]. A repository without a description holds none.
pub open spec fn names_innovation(repo: GitHubRepo) -> bool {
    repo.description matches Some(description) && any_occurs_in(
        innovation_keywords(),
        listing_text(repo.name@, description@),
    )
}

/// Whether a read-me of `size` bytes is worth the name; `None` stands for a
/// read-me that could not be fetched.
pub open spec fn is_readme_substantial(size: Option<u32>) -> bool {
    size matches Some(bytes) && bytes > README_BYTES_MIN
}

/// The address of the search for the `limit` most starred repositories that
/// were pushed to of late.
pub open spec fn recent_repos_url_text(limit: int) -> Seq<char> {
    "https://api.github.com/search/repositories?q=stars:>200+forks:>20+pushed:>2025-05-01&sort=stars&order=desc&per_page="@
        + decimal_text(limit)
}

/// Looks for well-kept repositories. Holds the token with which the caller
/// searches the forge.
pub struct GitHubScanner {
    token: String,
}

impl GitHubScanner {
    /// The token that the scanner was made with.
    pub closed spec fn token_text(&self) -> Seq<char> {
        self.token@
    }

    /// A scanner for the forge that `token` gives access to.
    pub fn new(token: String) -> (scanner: GitHubScanner)
        ensures
            scanner.token_text() == token@,
    {
        GitHubScanner { token }
    }

    /// The token with which to search.
    pub fn token(&self) -> (token: &String)
        ensures
            token@ == self.token_text(),
    {
        &self.token
    }

    /// The scan for repositories that were pushed to of late: the address
    /// at which the forge lists the `limit` most starred of them.
    pub fn scan_recent_repos(&self, limit: u32) -> (url: String)
        ensures
            url@ == recent_repos_url_text(limit as int),
    {
        let mut url = String::from_str(
            "https://api.github.com/search/repositories?q=stars:>200+forks:>20+pushed:>2025-05-01&sort=stars&order=desc&per_page=",
        );
        append_decimal(&mut url, limit as i64);
        url
    }

    /// Name and description of `repo` in lower case, with a blank between.
    fn listing_chars(repo: &GitHubRepo, description: &String) -> (text: Vec<char>)
        ensures
            text@ == listing_text(repo.name@, description@),
    {
        joined_by_blank(
            lowercase_chars(repo.name.as_str()),
            &lowercase_chars(description.as_str()),
        )
    }

    /// Whether what the listing says of `repo` is in order, so that its
    /// read-me is worth fetching.
    pub fn passes_listing(&self, repo: &GitHubRepo) -> (b: bool)
        ensures
            b == passes_listing_checks(*repo),
    {
        let description = match &repo.description {
            Some(text) => text,
            None => {
                return false;
            },
        };
        if description.as_str().as_bytes().len() < DESCRIPTION_BYTES_MIN {
            return false;
        }
        if repo.license.is_none() || repo.archived || repo.disabled {
            return false;
        }
        if repo.stargazers_count < STARS_MIN || repo.forks_count < FORKS_MIN {
            return false;
        }
        let excluded = words_of(
            &vec![
                "alpha",
                "beta",
                "test",
                "demo",
                "example",
                "tutorial",
                "course",
                "starter",
                "template",
                "playground",
                "boilerplate",
                "sample",
                "prototype",
                "learning",
                "practice",
                "homework",
            ],
        );
        assert(word_texts(excluded@) =~= exclude_keywords());
        let text = Self::listing_chars(repo, description);
        !contains_any(&text, &excluded)
    }

    /// Whether name or description of `repo` speak of new ground.
    pub fn mentions_innovation(&self, repo: &GitHubRepo) -> (b: bool)
        ensures
            b == names_innovation(*repo),
    {
        let description = match &repo.description {
            Some(text) => text,
            None => {
                return false;
            },
        };
        let wanted = words_of(
            &vec![
                "ai",
                "ml",
                "machine learning",
                "deep learning",
                "llm",
                "gpt",
                "blockchain",
                "web3",
                "decentralized",
                "distributed",
                "real-time",
                "performance",
                "optimization",
                "scalable",
                "compiler",
                "framework",
                "engine",
                "runtime",
                "neural",
                "model",
                "inference",
                "training",
                "cloud-native",
                "serverless",
                "microservices",
                "quantum",
                "edge computing",
                "iot",
                "autonomous",
                "zero-knowledge",
                "privacy-preserving",
                "secure",
                "rust",
                "go",
                "typescript",
                "python",
                "webassembly",
                "wasm",
            ],
        );
        assert(word_texts(wanted@) =~= innovation_keywords());
        let text = Self::listing_chars(repo, description);
        contains_any(&text, &wanted)
    }

    /// Whether a read-me of `size` bytes is worth the name; `None` stands
    /// for a read-me that could not be fetched.
    pub fn has_substantial_readme(&self, size: Option<u32>) -> (b: bool)
        ensures
            b == is_readme_substantial(size),
    {
        match size {
            Some(bytes) => bytes > README_BYTES_MIN,
            None => false,
        }
    }

    /// Whether the repository has runs of its workflows that succeeded:
    /// `successful_runs` is their number, `None` where they could not be
    /// fetched.
    pub fn check_ci_status(&self, successful_runs: Option<usize>) -> (b: bool)
        ensures
            b == (successful_runs matches Some(runs) && runs > 0),
    {
        match successful_runs {
            Some(runs) => runs > 0,
            None => false,
        }
    }

    /// Whether `repo` is taken: what the listing says of it is in order, and
    /// its read-me, of `readme_size` bytes, is substantial.
    pub fn validate_repo(&self, repo: &GitHubRepo, readme_size: Option<u32>) -> (valid: bool)
        ensures
            valid == (passes_listing_checks(*repo) && is_readme_substantial(readme_size)),
    {
        self.passes_listing(repo) && self.has_substantial_readme(readme_size)
    }

    /// Whether the scan goes on after `found` repositories were taken.
    pub fn wants_more(&self, found: usize) -> (b: bool)
        ensures
            b == (found < MAX_VALID_REPOS),
    {
        found < MAX_VALID_REPOS
    }
}

} // verus!
