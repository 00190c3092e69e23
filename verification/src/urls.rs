//! The addresses at which the forge answers questions about a repository.

use vstd::prelude::*;
use vstd::string::StringExecFns;

verus! {

/// Where the forge keeps what it knows of repositories.
pub const REPOS_URL: &'static str = "https://api.github.com/repos/";

/// What follows the name of a repository in the address of its latest
/// commits, a hundred at most.
pub const COMMITS_PATH: &'static str = "/commits?per_page=100";

/// What follows the name of a repository in the address of its top-level
/// directory.
pub const CONTENTS_PATH: &'static str = "/contents";

/// What follows the name of a repository in the address of its latest
/// issues, open or closed, fifty at most.
pub const ISSUES_PATH: &'static str = "/issues?state=all&per_page=50";

/// What follows the name of a repository in the address of its latest pull
/// requests, open or closed, fifty at most.
pub const PULLS_PATH: &'static str = "/pulls?state=all&per_page=50";

/// What follows the name of a repository in the address of its read-me.
pub const README_PATH: &'static str = "/readme";

/// What follows the name of a repository in the address of the latest runs
/// of its workflows that succeeded, five at most.
pub const SUCCESSFUL_RUNS_PATH: &'static str = "/actions/runs?per_page=5&status=success";

/// The address of what `path` names of the repository `repo`.
pub open spec fn repo_url_text(repo: Seq<char>, path: Seq<char>) -> Seq<char> {
    REPOS_URL@ + repo + path
}

/// The address of what `path` names of the repository `repo`; `path` is one
/// of the paths of this module.
pub fn repo_url(repo: &str, path: &str) -> (url: String)
    ensures
        url@ == repo_url_text(repo@, path@),
{
    let mut url = String::from_str(REPOS_URL);
    url.append(repo);
    url.append(path);
    url
}

} // verus!
