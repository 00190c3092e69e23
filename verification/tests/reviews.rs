use gem_scanner::ai_reviewer::{AIReviewer, AIScores, ReviewError};
use gem_scanner::analyzer::AIReview;
use gem_scanner::score::Score;

fn asker() -> AIReviewer {
    AIReviewer::new("secret".to_string())
}

fn scores(marks: [i32; 5]) -> AIScores {
    AIScores {
        architecture_score: marks[0],
        documentation_score: marks[1],
        testing_score: marks[2],
        practices_score: marks[3],
        innovation_score: marks[4],
        key_strengths: vec!["a".to_string(), "b".to_string(), "c".to_string()],
        improvements: vec!["x".to_string(), "y".to_string(), "z".to_string()],
        assessment: "Good.".to_string(),
    }
}

fn review_of(marks: [i32; 5]) -> AIReview {
    AIReview {
        architecture: marks[0],
        documentation: marks[1],
        testing: marks[2],
        practices: marks[3],
        innovation: marks[4],
        key_strengths: vec!["a".to_string(), "b".to_string(), "c".to_string()],
        improvements: vec!["x".to_string(), "y".to_string(), "z".to_string()],
        assessment: "Good.".to_string(),
    }
}

const OBJECT: &str = "{\"architecture_score\": 7, \"nested\": {\"k\": [1, 2]}}";

#[test]
fn asker_keeps_token_and_model() {
    assert_eq!(asker().github_token(), "secret");
    assert_eq!(asker().model(), "gpt-4o");
}

#[test]
fn reply_in_fences_gives_the_object_it_holds() {
    let reply = format!("Here is my answer:\n```json\n{}\n```\nHope this helps!", OBJECT);
    assert_eq!(asker().parse_ai_response(&reply), Ok(OBJECT.to_string()));
    assert_eq!(asker().parse_ai_response(OBJECT), Ok(OBJECT.to_string()));
}

#[test]
fn reply_in_plain_fences_gives_the_object_it_holds() {
    let reply = format!("  ```\n{}\n```  ", OBJECT);
    assert_eq!(asker().parse_ai_response(&reply), Ok(OBJECT.to_string()));
}

#[test]
fn reply_runs_from_the_first_opening_to_the_last_closing_brace() {
    assert_eq!(asker().parse_ai_response("a{b}c{d}e"), Ok("{b}c{d}".to_string()));
    assert_eq!(asker().parse_ai_response("{}"), Ok("{}".to_string()));
    assert_eq!(asker().parse_ai_response("é{ü}ß"), Ok("{ü}".to_string()));
}

#[test]
fn reply_without_an_object_is_refused() {
    for reply in ["", "no braces here", "only { an opening", "only } a closing", "} before {"] {
        assert_eq!(asker().parse_ai_response(reply), Err(ReviewError::NoJsonObject));
    }
}

#[test]
fn marks_from_1_to_10_make_a_review() {
    assert_eq!(asker().review_repository(scores([1, 10, 5, 7, 9])), Ok(review_of([1, 10, 5, 7, 9])));
}

#[test]
fn a_mark_out_of_range_makes_no_review() {
    for marks in [
        [0, 5, 5, 5, 5],
        [11, 5, 5, 5, 5],
        [5, 0, 5, 5, 5],
        [5, 5, 11, 5, 5],
        [5, 5, 5, -3, 5],
        [5, 5, 5, 5, 100],
    ] {
        assert_eq!(asker().review_repository(scores(marks)), Err(ReviewError::MarkOutOfRange));
    }
}

#[test]
fn mark_in_range_is_from_1_to_10() {
    assert!(!AIReviewer::mark_in_range(0));
    assert!(AIReviewer::mark_in_range(1));
    assert!(AIReviewer::mark_in_range(10));
    assert!(!AIReviewer::mark_in_range(11));
}

#[test]
fn quality_score_is_the_mean_mark_on_a_scale_of_100() {
    let quality = asker().calculate_quality_score(&review_of([6, 6, 6, 6, 6]));
    assert_eq!(quality, Score::from_points(60));
    let quality = asker().calculate_quality_score(&review_of([10, 10, 10, 10, 10]));
    assert_eq!(quality, Score::from_points(100));
    let quality = asker().calculate_quality_score(&review_of([1, 1, 1, 1, 1]));
    assert_eq!(quality, Score::from_points(10));
    let quality = asker().calculate_quality_score(&review_of([7, 8, 6, 9, 7]));
    assert_eq!(quality, Score::from_points(74));
}

#[test]
fn prompt_names_the_repository() {
    let prompt =
        asker().create_review_prompt("owner/name", "# Title\nText", &Some("Rust".to_string()), 321);
    let expected = "Analyze this GitHub repository and provide a quality assessment.

Repository: owner/name
Language: Rust
Stars: 321

README excerpt:
# Title
Text

Evaluate the project on these 5 dimensions (score 1-10 each):
1. Architecture: Code structure, modularity, design patterns
2. Documentation: README quality, comments, guides
3. Testing: Test coverage, CI/CD, quality assurance
4. Best Practices: Code style, security, performance
5. Innovation: Uniqueness, problem-solving approach

Also provide:
- 3 key strengths
- 3 areas for improvement
- Overall assessment (1 sentence)

Respond ONLY with valid JSON:
{
  \"architecture_score\": <1-10>,
  \"documentation_score\": <1-10>,
  \"testing_score\": <1-10>,
  \"practices_score\": <1-10>,
  \"innovation_score\": <1-10>,
  \"key_strengths\": [\"strength1\", \"strength2\", \"strength3\"],
  \"improvements\": [\"improvement1\", \"improvement2\", \"improvement3\"],
  \"assessment\": \"one sentence summary\"
}";
    assert_eq!(prompt, expected);
}

#[test]
fn prompt_calls_a_missing_language_unknown() {
    let prompt = asker().create_review_prompt("o/n", "", &None, -5);
    assert!(prompt.contains("\nLanguage: unknown\nStars: -5\n\nREADME excerpt:\n\n\nEvaluate"));
}

#[test]
fn prompt_shows_the_first_3000_characters_of_the_readme() {
    let readme: String = std::iter::repeat('ä').take(3000).chain("TAIL".chars()).collect();
    let prompt = asker().create_review_prompt("o/n", &readme, &None, 1);
    let excerpt: String = std::iter::repeat('ä').take(3000).collect();
    assert!(prompt.contains(&format!("README excerpt:\n{}\n\nEvaluate", excerpt)));
    assert!(!prompt.contains("TAIL"));
    let whole: String = std::iter::repeat('x').take(3000).collect();
    let prompt = asker().create_review_prompt("o/n", &whole, &None, 1);
    assert!(prompt.contains(&format!("README excerpt:\n{}\n\nEvaluate", whole)));
}

#[test]
fn conversation_holds_the_part_of_the_model_and_the_request() {
    let messages = asker().chat_messages("Judge this.".to_string());
    assert_eq!(messages.len(), 2);
    assert_eq!(messages[0].role, "system");
    assert_eq!(messages[0].content, "You are a code review expert. Respond only with valid JSON.");
    assert_eq!(messages[1].role, "user");
    assert_eq!(messages[1].content, "Judge this.");
}
