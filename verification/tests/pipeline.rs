use gem_scanner::analyzer::Metadata;
use gem_scanner::pipeline::{candidates_url, decode_readme, scan_repositories, CandidateRepo};

fn candidate(i: usize) -> CandidateRepo {
    CandidateRepo {
        full_name: format!("owner/r{}", i),
        stars: i as i32,
        forks: 2 * i as i32,
        language: if i % 2 == 0 { Some("Rust".to_string()) } else { None },
        created_at: format!("created {}", i),
        pushed_at: format!("pushed {}", i),
    }
}

fn expected(i: usize) -> (String, Metadata) {
    (
        format!("owner/r{}", i),
        Metadata {
            stars: i as i32,
            forks: 2 * i as i32,
            language: if i % 2 == 0 { Some("Rust".to_string()) } else { None },
            created_at: format!("created {}", i),
            last_push: format!("pushed {}", i),
        },
    )
}

#[test]
fn readme_is_decoded_from_base64_in_lines() {
    assert_eq!(decode_readme("aGVsbG8g\nd29ybGQ=\n"), Some("hello world".to_string()));
    assert_eq!(decode_readme("aGVsbG8="), Some("hello".to_string()));
    assert_eq!(decode_readme("w6Q="), Some("ä".to_string()));
    assert_eq!(decode_readme(""), Some(String::new()));
    assert_eq!(decode_readme("\n\n"), Some(String::new()));
}

#[test]
fn readme_that_is_not_base64_is_refused() {
    assert_eq!(decode_readme("not base64!"), None);
    assert_eq!(decode_readme("aGVsbG8"), None);
    assert_eq!(decode_readme("aGVs bG8="), None);
}

#[test]
fn readme_that_is_not_utf8_is_refused() {
    assert_eq!(decode_readme("/w=="), None);
    assert_eq!(decode_readme("wyg="), None);
}

#[test]
fn url_of_the_candidates_names_the_tier() {
    assert_eq!(
        candidates_url("micro"),
        "https://api.github.com/search/repositories?q=stars:10..100+forks:5..50+pushed:>2024-06-01+is:public&sort=updated&order=desc&per_page=20"
    );
    assert_eq!(candidates_url("anything"), candidates_url("small"));
}

#[test]
fn the_first_ten_repositories_are_candidates() {
    let items: Vec<CandidateRepo> = (0..20).map(candidate).collect();
    let want: Vec<(String, Metadata)> = (0..10).map(expected).collect();
    assert_eq!(scan_repositories(items), want);
}

#[test]
fn fewer_than_ten_repositories_are_all_candidates() {
    let items: Vec<CandidateRepo> = (0..3).map(candidate).collect();
    let want: Vec<(String, Metadata)> = (0..3).map(expected).collect();
    assert_eq!(scan_repositories(items), want);
    assert_eq!(scan_repositories(Vec::new()), Vec::new());
}
