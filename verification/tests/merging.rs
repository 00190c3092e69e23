use gem_scanner::aggregate::{Priority, Recommendation};
use gem_scanner::ai_reviewer::AIReviewer;
use gem_scanner::analyzer::{AIReview, Metadata, RepoAnalysis, Scores};
use gem_scanner::score::Score;

fn asker() -> AIReviewer {
    AIReviewer::new(String::new())
}

fn analysis(repo: &str, points: i32, recommendation: Recommendation) -> RepoAnalysis {
    RepoAnalysis {
        repo: repo.to_string(),
        total_score: Score::from_points(points),
        recommendation,
        priority: recommendation.priority(),
        scores: Scores {
            commit_activity: Score::from_points(1),
            code_quality: Score::from_points(2),
            developer_engagement: Score::from_points(3),
            project_maturity: Score::from_points(4),
            ai_code_quality: None,
        },
        ai_review: None,
        metadata: Metadata {
            stars: 5,
            forks: 6,
            language: None,
            created_at: "c".to_string(),
            last_push: "p".to_string(),
        },
    }
}

fn review(mark: i32) -> AIReview {
    AIReview {
        architecture: mark,
        documentation: mark,
        testing: mark,
        practices: mark,
        innovation: mark,
        key_strengths: vec!["s".to_string()],
        improvements: vec!["i".to_string()],
        assessment: "a".to_string(),
    }
}

#[test]
fn merging_80_with_quality_60_gives_75() {
    let merged = asker().merge_review(analysis("o/n", 80, Recommendation::Approve), review(6));
    assert_eq!(merged.total_score, Score::from_points(75));
    assert_eq!(merged.scores.ai_code_quality, Some(Score::from_points(60)));
    assert_eq!(merged.ai_review, Some(review(6)));
}

#[test]
fn merging_changes_nothing_else() {
    let before = analysis("o/n", 80, Recommendation::Approve);
    let merged = asker().merge_review(before.clone(), review(6));
    assert_eq!(merged.repo, before.repo);
    assert_eq!(merged.recommendation, before.recommendation);
    assert_eq!(merged.priority, before.priority);
    assert_eq!(merged.metadata, before.metadata);
    assert_eq!(merged.scores.commit_activity, before.scores.commit_activity);
    assert_eq!(merged.scores.code_quality, before.scores.code_quality);
    assert_eq!(merged.scores.developer_engagement, before.scores.developer_engagement);
    assert_eq!(merged.scores.project_maturity, before.scores.project_maturity);
}

#[test]
fn merging_keeps_four_decimal_places() {
    let mut before = analysis("o/n", 0, Recommendation::Approve);
    before.total_score = Score::from_ten_thousandths(712_300);
    // 0.75 * 71.23 + 0.25 * 74 = 71.9225
    let mut r = review(7);
    r.documentation = 8;
    r.testing = 6;
    r.practices = 9;
    let merged = asker().merge_review(before, r);
    assert_eq!(merged.total_score, Score::from_ten_thousandths(719_225));
}

#[test]
fn merging_is_done_once_only() {
    let once = asker().merge_review(analysis("o/n", 80, Recommendation::Approve), review(6));
    let twice = asker().merge_review(once.clone(), review(10));
    assert_eq!(twice, once);
}

#[test]
fn reviews_go_to_the_analyses_they_name() {
    let mut analyses = vec![
        analysis("a/a", 90, Recommendation::Approve),
        analysis("b/b", 80, Recommendation::Approve),
        analysis("c/c", 50, Recommendation::Reject),
    ];
    asker().merge_reviews(&mut analyses, vec![
        ("b/b".to_string(), review(6)),
        ("x/x".to_string(), review(1)),
        ("a/a".to_string(), review(10)),
        ("b/b".to_string(), review(1)),
    ]);
    assert_eq!(analyses.len(), 3);
    assert_eq!(analyses[0].total_score, Score::from_ten_thousandths(925_000));
    assert_eq!(analyses[0].ai_review, Some(review(10)));
    assert_eq!(analyses[1].total_score, Score::from_points(75));
    assert_eq!(analyses[1].ai_review, Some(review(6)));
    assert_eq!(analyses[2], analysis("c/c", 50, Recommendation::Reject));
}

#[test]
fn a_review_goes_to_the_first_analysis_of_its_name() {
    let mut analyses = vec![
        analysis("a/a", 80, Recommendation::Approve),
        analysis("a/a", 80, Recommendation::Approve),
    ];
    asker().merge_reviews(&mut analyses, vec![("a/a".to_string(), review(6))]);
    assert_eq!(analyses[0].total_score, Score::from_points(75));
    assert_eq!(analyses[1], analysis("a/a", 80, Recommendation::Approve));
}

#[test]
fn without_reviews_nothing_changes() {
    let mut analyses = vec![analysis("a/a", 80, Recommendation::Approve)];
    asker().merge_reviews(&mut analyses, Vec::new());
    assert_eq!(analyses, vec![analysis("a/a", 80, Recommendation::Approve)]);
}

#[test]
fn approved_analyses_are_chosen_in_order() {
    let analyses = vec![
        analysis("a", 90, Recommendation::Approve),
        analysis("b", 65, Recommendation::Review),
        analysis("c", 80, Recommendation::Approve),
        analysis("d", 10, Recommendation::Reject),
        analysis("e", 75, Recommendation::Approve),
    ];
    assert_eq!(asker().select_for_review(&analyses, 2), vec![0, 2]);
    assert_eq!(asker().select_for_review(&analyses, 3), vec![0, 2, 4]);
    assert_eq!(asker().select_for_review(&analyses, 10), vec![0, 2, 4]);
    assert_eq!(asker().select_for_review(&analyses, 0), Vec::<usize>::new());
    assert_eq!(asker().select_for_review(&Vec::new(), 2), Vec::<usize>::new());
}

#[test]
fn priority_is_not_a_reason_to_choose() {
    let mut odd = analysis("odd", 90, Recommendation::Review);
    odd.priority = Priority::High;
    assert_eq!(asker().select_for_review(&vec![odd], 5), Vec::<usize>::new());
}
