use gem_scanner::urls::{
    repo_url, COMMITS_PATH, CONTENTS_PATH, ISSUES_PATH, PULLS_PATH, README_PATH,
    SUCCESSFUL_RUNS_PATH,
};

#[test]
fn addresses_name_the_repository() {
    assert_eq!(
        repo_url("owner/name", COMMITS_PATH),
        "https://api.github.com/repos/owner/name/commits?per_page=100"
    );
    assert_eq!(
        repo_url("owner/name", CONTENTS_PATH),
        "https://api.github.com/repos/owner/name/contents"
    );
    assert_eq!(
        repo_url("owner/name", ISSUES_PATH),
        "https://api.github.com/repos/owner/name/issues?state=all&per_page=50"
    );
    assert_eq!(
        repo_url("owner/name", PULLS_PATH),
        "https://api.github.com/repos/owner/name/pulls?state=all&per_page=50"
    );
    assert_eq!(
        repo_url("owner/name", README_PATH),
        "https://api.github.com/repos/owner/name/readme"
    );
    assert_eq!(
        repo_url("owner/name", SUCCESSFUL_RUNS_PATH),
        "https://api.github.com/repos/owner/name/actions/runs?per_page=5&status=success"
    );
}
