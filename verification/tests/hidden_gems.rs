use gem_scanner::hidden_gems::{
    tier_bounds, GemError, HiddenGemRepo, HiddenGemsScanner, License, TierBounds, TierScan,
};
use gem_scanner::time::Timestamp;

fn scanner() -> HiddenGemsScanner {
    HiddenGemsScanner::new("token".to_string())
}

fn now() -> Timestamp {
    Timestamp::parse("2024-06-01T00:00:00Z").unwrap()
}

fn gem(name: &str) -> HiddenGemRepo {
    HiddenGemRepo {
        name: name.to_string(),
        full_name: format!("owner/{}", name),
        html_url: format!("https://github.com/owner/{}", name),
        description: Some("A fast and careful parser for configuration files".to_string()),
        stars: 100,
        forks: 10,
        language: Some("Rust".to_string()),
        license: Some(License { name: "MIT License".to_string(), spdx_id: "MIT".to_string() }),
        created_at: "2022-01-01T00:00:00Z".to_string(),
        updated_at: "2024-05-20T00:00:00Z".to_string(),
        pushed_at: "2024-05-20T00:00:00Z".to_string(),
        size: 500,
        open_issues: 3,
        has_wiki: false,
        has_pages: false,
        topics: vec!["parser".to_string()],
    }
}

#[test]
fn gems_scanner_keeps_its_token() {
    assert_eq!(scanner().github_token(), "token");
}

#[test]
fn tiers_have_their_bounds() {
    let micro = TierBounds { min_stars: 10, max_stars: 100, min_forks: 5, max_forks: 50 };
    let small = TierBounds { min_stars: 100, max_stars: 500, min_forks: 10, max_forks: 100 };
    let medium = TierBounds { min_stars: 500, max_stars: 2000, min_forks: 20, max_forks: 200 };
    assert_eq!(tier_bounds("micro"), micro);
    assert_eq!(tier_bounds("small"), small);
    assert_eq!(tier_bounds("medium"), medium);
    assert_eq!(tier_bounds("large"), small);
    assert_eq!(tier_bounds("Micro"), small);
    assert_eq!(tier_bounds(""), small);
}

#[test]
fn query_names_the_bounds() {
    assert_eq!(
        tier_bounds("micro").search_query(),
        "stars:10..100+forks:5..50+pushed:>2024-06-01+is:public"
    );
    assert_eq!(
        tier_bounds("medium").search_query(),
        "stars:500..2000+forks:20..200+pushed:>2024-06-01+is:public"
    );
}

#[test]
fn url_names_query_and_page() {
    assert_eq!(
        scanner().search_url("small", 3),
        "https://api.github.com/search/repositories?q=stars:100..500+forks:10..100+pushed:>2024-06-01+is:public&sort=updated&order=desc&per_page=20&page=3"
    );
}

#[test]
fn fork_ratio_is_balanced_between_a_twentieth_and_three_tenths() {
    assert!(HiddenGemsScanner::fork_ratio_balanced(10, 100));
    assert!(!HiddenGemsScanner::fork_ratio_balanced(5, 100));
    assert!(HiddenGemsScanner::fork_ratio_balanced(6, 100));
    assert!(!HiddenGemsScanner::fork_ratio_balanced(30, 100));
    assert!(HiddenGemsScanner::fork_ratio_balanced(29, 100));
    assert!(!HiddenGemsScanner::fork_ratio_balanced(0, 100));
    assert!(!HiddenGemsScanner::fork_ratio_balanced(10, 0));
    assert!(!HiddenGemsScanner::fork_ratio_balanced(0, 0));
    assert!(HiddenGemsScanner::fork_ratio_balanced(-10, -100));
    assert!(!HiddenGemsScanner::fork_ratio_balanced(10, -100));
    assert!(!HiddenGemsScanner::fork_ratio_balanced(-5, -100));
    assert!(!HiddenGemsScanner::fork_ratio_balanced(-30, -100));
}

#[test]
fn quality_indicators_give_two_points_each() {
    let mut repo = gem("parser");
    repo.topics = Vec::new();
    repo.size = 100;
    repo.forks = 50;
    assert_eq!(scanner().calculate_quality_indicators(&repo), 0);
    repo.topics = vec!["t".to_string()];
    assert_eq!(scanner().calculate_quality_indicators(&repo), 2);
    repo.has_pages = true;
    assert_eq!(scanner().calculate_quality_indicators(&repo), 4);
    repo.has_wiki = true;
    assert_eq!(scanner().calculate_quality_indicators(&repo), 4);
    repo.description = Some("x".repeat(81));
    assert_eq!(scanner().calculate_quality_indicators(&repo), 6);
    repo.size = 201;
    assert_eq!(scanner().calculate_quality_indicators(&repo), 8);
    repo.forks = 10;
    assert_eq!(scanner().calculate_quality_indicators(&repo), 10);
}

#[test]
fn quality_indicators_have_strict_bounds() {
    let mut repo = gem("parser");
    repo.topics = Vec::new();
    repo.forks = 0;
    repo.description = Some("x".repeat(80));
    repo.size = 200;
    assert_eq!(scanner().calculate_quality_indicators(&repo), 0);
    repo.size = 100_000;
    assert_eq!(scanner().calculate_quality_indicators(&repo), 0);
    repo.size = 99_999;
    assert_eq!(scanner().calculate_quality_indicators(&repo), 2);
    repo.description = None;
    assert_eq!(scanner().calculate_quality_indicators(&repo), 2);
}

#[test]
fn description_is_measured_in_bytes() {
    let mut repo = gem("parser");
    repo.topics = Vec::new();
    repo.size = 100;
    repo.forks = 0;
    repo.description = Some("é".repeat(41));
    assert_eq!(scanner().calculate_quality_indicators(&repo), 2);
    repo.description = Some("é".repeat(40));
    assert_eq!(scanner().calculate_quality_indicators(&repo), 0);
}

#[test]
fn a_good_repository_is_a_hidden_gem() {
    assert_eq!(scanner().is_valid_hidden_gem(&gem("parser"), &now()), Ok(true));
}

#[test]
fn a_repository_needs_a_description_of_30_bytes() {
    let mut repo = gem("parser");
    repo.description = None;
    assert_eq!(scanner().is_valid_hidden_gem(&repo, &now()), Ok(false));
    repo.description = Some("x".repeat(29));
    assert_eq!(scanner().is_valid_hidden_gem(&repo, &now()), Ok(false));
    repo.description = Some("x".repeat(30));
    assert_eq!(scanner().is_valid_hidden_gem(&repo, &now()), Ok(true));
}

#[test]
fn a_red_flag_in_name_or_description_rules_out() {
    let mut repo = gem("parser-template");
    assert_eq!(scanner().is_valid_hidden_gem(&repo, &now()), Ok(false));
    repo = gem("parser");
    repo.description = Some("An EXPERIMENTAL parser for configuration files".to_string());
    assert_eq!(scanner().is_valid_hidden_gem(&repo, &now()), Ok(false));
    repo.description = Some("This is still a Work In Progress, beware".to_string());
    assert_eq!(scanner().is_valid_hidden_gem(&repo, &now()), Ok(false));
    repo.description = Some("The latest and greatest parser of them all".to_string());
    assert_eq!(scanner().is_valid_hidden_gem(&repo, &now()), Ok(false));
}

#[test]
fn licence_language_and_size_are_needed() {
    let mut repo = gem("parser");
    repo.license = None;
    assert_eq!(scanner().is_valid_hidden_gem(&repo, &now()), Ok(false));
    repo = gem("parser");
    repo.language = None;
    assert_eq!(scanner().is_valid_hidden_gem(&repo, &now()), Ok(false));
    repo = gem("parser");
    repo.size = 49;
    repo.has_wiki = true;
    assert_eq!(scanner().is_valid_hidden_gem(&repo, &now()), Ok(false));
    repo.size = 50;
    assert_eq!(scanner().is_valid_hidden_gem(&repo, &now()), Ok(true));
}

#[test]
fn the_last_push_must_be_no_more_than_180_days_ago() {
    let mut repo = gem("parser");
    repo.pushed_at = "2023-12-04T00:00:00Z".to_string();
    assert_eq!(scanner().is_valid_hidden_gem(&repo, &now()), Ok(true));
    repo.pushed_at = "2023-12-03T00:00:00Z".to_string();
    assert_eq!(scanner().is_valid_hidden_gem(&repo, &now()), Ok(false));
    repo.pushed_at = "2023-12-03T00:00:01Z".to_string();
    assert_eq!(scanner().is_valid_hidden_gem(&repo, &now()), Ok(true));
}

#[test]
fn an_unreadable_push_date_gives_no_verdict() {
    let mut repo = gem("parser");
    repo.pushed_at = "yesterday".to_string();
    assert_eq!(scanner().is_valid_hidden_gem(&repo, &now()), Err(GemError::UnreadablePushDate));
    repo.license = None;
    assert_eq!(scanner().is_valid_hidden_gem(&repo, &now()), Ok(false));
}

#[test]
fn few_signs_of_quality_rule_out() {
    let mut repo = gem("parser");
    repo.topics = Vec::new();
    repo.forks = 0;
    assert_eq!(scanner().calculate_quality_indicators(&repo), 2);
    assert_eq!(scanner().is_valid_hidden_gem(&repo, &now()), Ok(false));
}

#[test]
fn a_scan_begins_with_the_first_page() {
    let scan = TierScan::begin();
    assert_eq!(scan.next_page(), Some(1));
    assert_eq!(scan.into_found(), Vec::new());
}

#[test]
fn a_scan_keeps_the_gems_of_a_page() {
    let mut bad = gem("bad");
    bad.license = None;
    let scan = scanner()
        .scan_tier(TierScan::begin(), vec![gem("one"), bad, gem("two")], &now())
        .ok()
        .unwrap();
    assert_eq!(scan.next_page(), Some(2));
    assert_eq!(scan.into_found(), vec![gem("one"), gem("two")]);
}

#[test]
fn a_scan_stops_at_five_gems() {
    let page: Vec<HiddenGemRepo> = (0..8).map(|i| gem(&format!("g{}", i))).collect();
    let first = scanner()
        .scan_tier(TierScan::begin(), vec![gem("a"), gem("b")], &now())
        .ok()
        .unwrap();
    let second = scanner().scan_tier(first, page, &now()).ok().unwrap();
    assert_eq!(second.next_page(), None);
    assert_eq!(second.into_found(), vec![gem("a"), gem("b"), gem("g0"), gem("g1"), gem("g2")]);
}

#[test]
fn a_scan_does_not_look_at_what_follows_the_fifth_gem() {
    let mut unreadable = gem("unreadable");
    unreadable.pushed_at = "?".to_string();
    let mut page: Vec<HiddenGemRepo> = (0..5).map(|i| gem(&format!("g{}", i))).collect();
    page.push(unreadable);
    let scan = scanner().scan_tier(TierScan::begin(), page, &now()).ok().unwrap();
    assert_eq!(scan.into_found().len(), 5);
}

#[test]
fn a_scan_stops_after_five_pages() {
    let mut scan = TierScan::begin();
    for page in 1..=5 {
        assert_eq!(scan.next_page(), Some(page));
        scan = scanner().scan_tier(scan, Vec::new(), &now()).ok().unwrap();
    }
    assert_eq!(scan.next_page(), None);
    let same = scanner().scan_tier(scan, vec![gem("late")], &now()).ok().unwrap();
    assert_eq!(same.next_page(), None);
    assert_eq!(same.into_found(), Vec::new());
}

#[test]
fn a_scan_ends_with_the_error_of_a_repository() {
    let mut unreadable = gem("unreadable");
    unreadable.pushed_at = "?".to_string();
    let outcome = scanner().scan_tier(TierScan::begin(), vec![gem("a"), unreadable], &now());
    assert_eq!(outcome.err(), Some(GemError::UnreadablePushDate));
}
