//! The qualitative review of a repository by a language model: what is read
//! out of the model's reply, and how the review enters the total score.

use crate::analyzer::AIReview;
use crate::score::Score;
use crate::text::{append_decimal, chars_of, decimal_text};
use vstd::prelude::*;
use vstd::string::{StrSliceExecFns, StringExecFns};

verus! {

/// Why a reply of the model gives no review.
#[derive(Clone, Copy, Debug, PartialEq, Eq, Structural)]
pub enum ReviewError {
    /// The reply holds no text from an opening brace to a later closing
    /// brace.
    NoJsonObject,
    /// One of the five marks is not between 1 and 10.
    MarkOutOfRange,
}

/// The marks and remarks as they stand in a reply of the model, before they
/// are checked.
#[derive(Clone, Debug, PartialEq, Eq)]
pub struct AIScores {
    /// Mark for architecture.
    pub architecture_score: i32,
    /// Mark for documentation.
    pub documentation_score: i32,
    /// Mark for testing.
    pub testing_score: i32,
    /// Mark for practices.
    pub practices_score: i32,
    /// Mark for innovation.
    pub innovation_score: i32,
    /// What is good about the project.
    pub key_strengths: Vec<String>,
    /// What could be better.
    pub improvements: Vec<String>,
    /// The judgement in one sentence.
    pub assessment: String,
}

/// Where the model answers.
pub const MODELS_URL: &'static str = "https://models.inference.ai.azure.com/chat/completions";

/// What the model is told about its part.
pub const SYSTEM_MESSAGE: &'static str =
    "You are a code review expert. Respond only with valid JSON.";

/// Most tokens that the model may answer with.
pub const MAX_TOKENS: i32 = 800;

/// The temperature at which the model answers, in hundredths: low, so that
/// it keeps to the form that is asked for.
pub const TEMPERATURE_HUNDREDTHS: u8 = 30;

/// One message of a conversation with the model.
#[derive(Clone, Debug, PartialEq, Eq)]
pub struct ChatMessage {
    /// Who speaks: `system` or `user`.
    pub role: String,
    /// What is said.
    pub content: String,
}

/// Most characters of a read-me that are shown to the model.
pub const README_EXCERPT_CHARS: usize = 3000;

/// How the request to the model begins.
pub const PROMPT_OPENING: &'static str =
    "Analyze this GitHub repository and provide a quality assessment.\n\nRepository: ";

/// What stands before the language in the request.
pub const PROMPT_LANGUAGE: &'static str = "\nLanguage: ";

/// What stands before the number of stars in the request.
pub const PROMPT_STARS: &'static str = "\nStars: ";

/// What stands before the excerpt of the read-me in the request.
pub const PROMPT_README: &'static str = "\n\nREADME excerpt:\n";

/// How the request to the model ends: what is to be judged, and the form of
/// the answer.
pub const PROMPT_TASK: &'static str = "\n\nEvaluate the project on these 5 dimensions (score 1-10 each):\n1. Architecture: Code structure, modularity, design patterns\n2. Documentation: README quality, comments, guides\n3. Testing: Test coverage, CI/CD, quality assurance\n4. Best Practices: Code style, security, performance\n5. Innovation: Uniqueness, problem-solving approach\n\nAlso provide:\n- 3 key strengths\n- 3 areas for improvement\n- Overall assessment (1 sentence)\n\nRespond ONLY with valid JSON:\n{\n  \"architecture_score\": <1-10>,\n  \"documentation_score\": <1-10>,\n  \"testing_score\": <1-10>,\n  \"practices_score\": <1-10>,\n  \"innovation_score\": <1-10>,\n  \"key_strengths\": [\"strength1\", \"strength2\", \"strength3\"],\n  \"improvements\": [\"improvement1\", \"improvement2\", \"improvement3\"],\n  \"assessment\": \"one sentence summary\"\n}";

/// The part of a read-me that is shown to the model: its first
/// [`README_EXCERPT_CHARS`] characters, or all of it where it is shorter.
pub open spec fn readme_excerpt(readme: Seq<char>) -> Seq<char> {
    if readme.len() > README_EXCERPT_CHARS {
        readme.take(README_EXCERPT_CHARS as int)
    } else {
        readme
    }
}

/// The language as the request names it: `unknown` where none is known.
pub open spec fn language_text(language: Option<String>) -> Seq<char> {
    match language {
        Some(name) => name@,
        None => "unknown"@,
    }
}

/// The request that asks the model to judge a repository.
pub open spec fn review_prompt(
    repo: Seq<char>,
    readme: Seq<char>,
    language: Option<String>,
    stars: int,
) -> Seq<char> {
    PROMPT_OPENING@ + repo + PROMPT_LANGUAGE@ + language_text(language) + PROMPT_STARS@
        + decimal_text(stars) + PROMPT_README@ + readme_excerpt(readme) + PROMPT_TASK@
}

/// Whether a mark is one that the model may give: from 1 to 10.
pub open spec fn is_mark(mark: int) -> bool {
    1 <= mark <= 10
}

/// Whether all five marks are from 1 to 10.
pub open spec fn marks_in_range(scores: AIScores) -> bool {
    &&& is_mark(scores.architecture_score as int)
    &&& is_mark(scores.documentation_score as int)
    &&& is_mark(scores.testing_score as int)
    &&& is_mark(scores.practices_score as int)
    &&& is_mark(scores.innovation_score as int)
}

/// The JSON object in a reply: the text from the first opening brace to the
/// last closing brace, both included. `None` where the reply lacks one of
/// them, or the last closing brace stands before the first opening one.
pub open spec fn json_object_text(reply: Seq<char>) -> Option<Seq<char>> {
    match (reply.index_of_first('{'), reply.index_of_last('}')) {
        (Some(open), Some(close)) => if open < close {
            Some(reply.subrange(open, close + 1))
        } else {
            None
        },
        _ => None,
    }
}

/// The sum of the five marks of a review.
pub open spec fn mark_sum(review: AIReview) -> int {
    review.architecture + review.documentation + review.testing + review.practices
        + review.innovation
}

/// The score of a review: the mean of the five marks, as a part of 10, on a
/// scale of 100.
pub open spec fn quality_value(review: AIReview) -> real {
    mark_sum(review) as real / 5real / 10real * 100real
}

/// Whether all five marks of a review are from 1 to 10.
pub open spec fn is_valid_review(review: AIReview) -> bool {
    &&& is_mark(review.architecture as int)
    &&& is_mark(review.documentation as int)
    &&& is_mark(review.testing as int)
    &&& is_mark(review.practices as int)
    &&& is_mark(review.innovation as int)
}

/// A character that stands at `at` and nowhere before is first found at `at`.
proof fn lemma_first_index(text: Seq<char>, wanted: char, at: int)
    requires
        0 <= at < text.len(),
        text[at] == wanted,
        forall|k: int| 0 <= k < at ==> text[k] != wanted,
    ensures
        text.index_of_first(wanted) == Some(at),
{
    text.index_of_first_ensures(wanted);
    assert(text.contains(wanted));
    let found = text.index_of_first(wanted).unwrap();
    assert(text[found] == wanted);
    assert(!(found < at));
    assert(!(at < found));
}

/// A character that stands at `at` and nowhere after is last found at `at`.
proof fn lemma_last_index(text: Seq<char>, wanted: char, at: int)
    requires
        0 <= at < text.len(),
        text[at] == wanted,
        forall|k: int| at < k < text.len() ==> text[k] != wanted,
    ensures
        text.index_of_last(wanted) == Some(at),
{
    text.index_of_last_ensures(wanted);
    assert(text.contains(wanted));
    let found = text.index_of_last(wanted).unwrap();
    assert(text[found] == wanted);
    assert(!(found < at));
    assert(!(at < found));
}

/// What stands around a JSON object does not matter: a reply that holds the
/// object between other text, such as code fences and remarks, gives the
/// same object as the object alone. The text in front must hold no opening
/// brace and the text behind no closing brace.
pub proof fn lemma_wrapping_is_ignored(front: Seq<char>, object: Seq<char>, back: Seq<char>)
    requires
        object.len() >= 2,
        object.first() == '{',
        object.last() == '}',
        !front.contains('{'),
        !back.contains('}'),
    ensures
        json_object_text(front + object + back) == Some(object),
        json_object_text(object) == Some(object),
{
    let reply = front + object + back;
    let open = front.len() as int;
    let close = front.len() + object.len() - 1;
    assert(reply[open] == object[0]);
    assert(reply[close] == object[object.len() - 1]);
    assert forall|k: int| 0 <= k < open implies reply[k] != '{' by {
        assert(reply[k] == front[k]);
        assert(front.contains(front[k]));
    }
    assert forall|k: int| close < k < reply.len() implies reply[k] != '}' by {
        assert(reply[k] == back[k - front.len() - object.len()]);
        assert(back.contains(back[k - front.len() - object.len()]));
    }
    lemma_first_index(reply, '{', open);
    lemma_last_index(reply, '}', close);
    assert(reply.subrange(open, close + 1) =~= object);
    let empty = Seq::<char>::empty();
    assert(empty + object + empty =~= object);
    lemma_first_index(object, '{', 0);
    lemma_last_index(object, '}', object.len() - 1);
    assert(object.subrange(0, object.len() as int) =~= object);
}

/// The position of the first `wanted` in `chars`, if there is one.
fn find_first(chars: &Vec<char>, wanted: char) -> (at: Option<usize>)
    ensures
        match at {
            Some(i) => chars@.index_of_first(wanted) == Some(i as int) && i < chars@.len(),
            None => chars@.index_of_first(wanted) is None,
        },
{
    let mut i: usize = 0;
    while i < chars.len()
        invariant
            i <= chars@.len(),
            forall|k: int| 0 <= k < i ==> chars@[k] != wanted,
        decreases chars@.len() - i,
    {
        if chars[i] == wanted {
            proof {
                lemma_first_index(chars@, wanted, i as int);
            }
            return Some(i);
        }
        i = i + 1;
    }
    proof {
        chars@.index_of_first_ensures(wanted);
        assert(!chars@.contains(wanted));
    }
    None
}

/// The position of the last `wanted` in `chars`, if there is one.
fn find_last(chars: &Vec<char>, wanted: char) -> (at: Option<usize>)
    ensures
        match at {
            Some(i) => chars@.index_of_last(wanted) == Some(i as int) && i < chars@.len(),
            None => chars@.index_of_last(wanted) is None,
        },
{
    let mut i: usize = chars.len();
    while i > 0
        invariant
            i <= chars@.len(),
            forall|k: int| i <= k < chars@.len() ==> chars@[k] != wanted,
        decreases i,
    {
        i = i - 1;
        if chars[i] == wanted {
            proof {
                lemma_last_index(chars@, wanted, i as int);
            }
            return Some(i);
        }
    }
    proof {
        chars@.index_of_last_ensures(wanted);
        assert(!chars@.contains(wanted));
    }
    None
}

/// Asks a language model for reviews and reads its replies. Holds the token
/// and the name of the model for the caller that sends the request.
pub struct AIReviewer {
    github_token: String,
    model: String,
}

impl AIReviewer {
    /// The token that was given to [`AIReviewer::new`].
    pub closed spec fn token(&self) -> Seq<char> {
        self.github_token@
    }

    /// The name of the model that is asked.
    pub closed spec fn model_name(&self) -> Seq<char> {
        self.model@
    }

    /// Sets up the asking of the model `gpt-4o` with `github_token`.
    pub fn new(github_token: String) -> (asker: AIReviewer)
        ensures
            asker.token() == github_token@,
            asker.model_name() == "gpt-4o"@,
    {
        AIReviewer { github_token, model: "gpt-4o".to_owned() }
    }

    /// The token with which to send the request.
    pub fn github_token(&self) -> (token: &String)
        ensures
            token@ == self.token(),
    {
        &self.github_token
    }

    /// The name of the model to ask.
    pub fn model(&self) -> (model: &String)
        ensures
            model@ == self.model_name(),
    {
        &self.model
    }

    /// Writes the request that asks the model to judge the repository `repo`
    /// from its language, its stars and the beginning of its read-me.
    pub fn create_review_prompt(
        &self,
        repo: &str,
        readme: &str,
        language: &Option<String>,
        stars: i32,
    ) -> (prompt: String)
        ensures
            prompt@ == review_prompt(repo@, readme@, *language, stars as int),
    {
        let excerpt = if readme.unicode_len() > README_EXCERPT_CHARS {
            readme.substring_char(0, README_EXCERPT_CHARS)
        } else {
            readme
        };
        assert(excerpt@ =~= readme_excerpt(readme@));
        let mut prompt = String::from_str(PROMPT_OPENING);
        prompt.append(repo);
        prompt.append(PROMPT_LANGUAGE);
        match language {
            Some(name) => prompt.append(name.as_str()),
            None => prompt.append("unknown"),
        }
        prompt.append(PROMPT_STARS);
        append_decimal(&mut prompt, stars as i64);
        prompt.append(PROMPT_README);
        prompt.append(excerpt);
        prompt.append(PROMPT_TASK);
        prompt
    }

    /// The conversation that is sent to the model: what it is told about
    /// its part, and the request.
    pub fn chat_messages(&self, prompt: String) -> (messages: Vec<ChatMessage>)
        ensures
            messages@.len() == 2,
            messages@[0].role@ == "system"@,
            messages@[0].content@ == SYSTEM_MESSAGE@,
            messages@[1].role@ == "user"@,
            messages@[1].content == prompt,
    {
        let mut messages: Vec<ChatMessage> = Vec::new();
        messages.push(
            ChatMessage {
                role: String::from_str("system"),
                content: String::from_str(SYSTEM_MESSAGE),
            },
        );
        messages.push(ChatMessage { role: String::from_str("user"), content: prompt });
        messages
    }

    /// Cuts the JSON object out of a reply of the model, which may stand
    /// between code fences and other text: the object runs from the first
    /// opening brace to the last closing brace.
    pub fn parse_ai_response(&self, response: &str) -> (object: Result<String, ReviewError>)
        ensures
            match object {
                Ok(text) => json_object_text(response@) == Some(text@),
                Err(e) => e == ReviewError::NoJsonObject && json_object_text(response@) is None,
            },
    {
        let chars = chars_of(response);
        if chars.len() < 2 {
            proof {
                chars@.index_of_first_ensures('{');
                chars@.index_of_last_ensures('}');
            }
            return Err(ReviewError::NoJsonObject);
        }
        match (find_first(&chars, '{'), find_last(&chars, '}')) {
            (Some(open), Some(close)) => {
                if open < close {
                    Ok(response.substring_char(open, close + 1).to_owned())
                } else {
                    Err(ReviewError::NoJsonObject)
                }
            },
            _ => Err(ReviewError::NoJsonObject),
        }
    }

    /// Makes a review of the marks and remarks read out of a reply. A reply
    /// with a mark outside 1 to 10 gives no review.
    pub fn review_repository(&self, scores: AIScores) -> (review: Result<AIReview, ReviewError>)
        ensures
            match review {
                Ok(r) => {
                    &&& marks_in_range(scores)
                    &&& r.architecture == scores.architecture_score
                    &&& r.documentation == scores.documentation_score
                    &&& r.testing == scores.testing_score
                    &&& r.practices == scores.practices_score
                    &&& r.innovation == scores.innovation_score
                    &&& r.key_strengths == scores.key_strengths
                    &&& r.improvements == scores.improvements
                    &&& r.assessment == scores.assessment
                    &&& is_valid_review(r)
                },
                Err(e) => e == ReviewError::MarkOutOfRange && !marks_in_range(scores),
            },
    {
        if !Self::mark_in_range(scores.architecture_score) || !Self::mark_in_range(
            scores.documentation_score,
        ) || !Self::mark_in_range(scores.testing_score) || !Self::mark_in_range(
            scores.practices_score,
        ) || !Self::mark_in_range(scores.innovation_score) {
            return Err(ReviewError::MarkOutOfRange);
        }
        Ok(
            AIReview {
                architecture: scores.architecture_score,
                documentation: scores.documentation_score,
                testing: scores.testing_score,
                practices: scores.practices_score,
                innovation: scores.innovation_score,
                key_strengths: scores.key_strengths,
                improvements: scores.improvements,
                assessment: scores.assessment,
            },
        )
    }

    /// Whether a mark is from 1 to 10.
    pub fn mark_in_range(mark: i32) -> (b: bool)
        ensures
            b == is_mark(mark as int),
    {
        1 <= mark && mark <= 10
    }

    /// The score of a review: the mean of the five marks, as a part of 10,
    /// on a scale of 100.
    pub fn calculate_quality_score(&self, review: &AIReview) -> (quality: Score)
        ensures
            quality.value() == quality_value(*review),
            quality.units() == 20000 * mark_sum(*review),
            is_valid_review(*review) ==> 10real <= quality.value() <= 100real,
    {
        let sum: i64 = review.architecture as i64 + review.documentation as i64
            + review.testing as i64 + review.practices as i64 + review.innovation as i64;
        Score::from_ten_thousandths(sum * 20000)
    }
}

} // verus!
