//! The steps around the analysis: the search for candidates, and reading
//! the read-me that the forge sends.

use crate::analyzer::Metadata;
use crate::hidden_gems::{search_query_text, tier_bounds, tier_bounds_of};
use vstd::prelude::*;
use vstd::string::StringExecFns;
use vstd::utf8::{decode_utf8, encode_utf8, valid_utf8};

verus! {

/// The bytes that decoding with the standard Base64 alphabet, with padding,
/// gives for `encoded`, as the `base64` crate does it
/// (`general_purpose::STANDARD.decode`); `None` where it reports an error.
pub uninterp spec fn standard_base64_decoding(encoded: Seq<u8>) -> Option<Seq<u8>>;

/// Calls `decode` of the engine `general_purpose::STANDARD` of the `base64`
/// crate. Trusted: the result is the decoding named by
/// [`standard_base64_decoding`], which depends on the input alone.
#[verifier::external_body]
fn base64_decode(encoded: &Vec<u8>) -> (decoded: Option<Vec<u8>>)
    ensures
        match decoded {
            Some(bytes) => standard_base64_decoding(encoded@) == Some(bytes@),
            None => standard_base64_decoding(encoded@) is None,
        },
{
    match base64::Engine::decode(&base64::engine::general_purpose::STANDARD, encoded) {
        Ok(bytes) => Some(bytes),
        Err(_) => None,
    }
}

/// Calls `String::from_utf8`. Trusted: there is a string exactly where the
/// bytes are valid UTF-8, and it holds the characters that they encode.
#[verifier::external_body]
fn string_from_utf8(bytes: Vec<u8>) -> (text: Option<String>)
    ensures
        text is Some <==> valid_utf8(bytes@),
        text matches Some(s) ==> s@ == decode_utf8(bytes@),
{
    match String::from_utf8(bytes) {
        Ok(text) => Some(text),
        Err(_) => None,
    }
}

/// The byte of a line feed.
pub const LINE_FEED: u8 = 10;

/// `bytes` without the line feeds.
pub open spec fn without_line_feeds(bytes: Seq<u8>) -> Seq<u8> {
    bytes.filter(|b: u8| b != LINE_FEED)
}

/// The text of a read-me that the forge sent as `content`: Base64 in lines.
/// `None` where the content, taken without its line feeds, is not Base64,
/// or the bytes are not UTF-8.
pub open spec fn readme_text(content: Seq<char>) -> Option<Seq<char>> {
    match standard_base64_decoding(without_line_feeds(encode_utf8(content))) {
        Some(bytes) => if valid_utf8(bytes) {
            Some(decode_utf8(bytes))
        } else {
            None
        },
        None => None,
    }
}

/// Takes the line feeds out of `bytes`.
fn strip_line_feeds(bytes: &[u8]) -> (kept: Vec<u8>)
    ensures
        kept@ == without_line_feeds(bytes@),
{
    let ghost wanted = |b: u8| b != LINE_FEED;
    let mut kept: Vec<u8> = Vec::new();
    let mut i: usize = 0;
    proof {
        assert(bytes@.take(0) =~= Seq::<u8>::empty());
        reveal(Seq::filter);
    }
    while i < bytes.len()
        invariant
            i <= bytes@.len(),
            wanted == |b: u8| b != LINE_FEED,
            kept@ == bytes@.take(i as int).filter(wanted),
        decreases bytes@.len() - i,
    {
        proof {
            assert(bytes@.take(i + 1) =~= bytes@.take(i as int).push(bytes@[i as int]));
            bytes@.take(i as int).lemma_filter_push(bytes@[i as int], wanted);
        }
        if bytes[i] != LINE_FEED {
            kept.push(bytes[i]);
        }
        i = i + 1;
    }
    assert(bytes@.take(bytes@.len() as int) =~= bytes@);
    kept
}

/// Reads the text of a read-me out of the content that the forge sent for
/// it: Base64, broken into lines.
pub fn decode_readme(content: &str) -> (text: Option<String>)
    ensures
        match text {
            Some(readme) => readme_text(content@) == Some(readme@),
            None => readme_text(content@) is None,
        },
{
    let encoded = strip_line_feeds(content.as_bytes());
    match base64_decode(&encoded) {
        Some(bytes) => string_from_utf8(bytes),
        None => None,
    }
}

/// A repository as the search for candidates lists it.
#[derive(Clone, Debug, PartialEq, Eq)]
pub struct CandidateRepo {
    /// Owner and name, as `owner/name`.
    pub full_name: String,
    /// The number of stars.
    pub stars: i32,
    /// The number of forks.
    pub forks: i32,
    /// The main programming language.
    pub language: Option<String>,
    /// When it was created.
    pub created_at: String,
    /// When it was last pushed to.
    pub pushed_at: String,
}

/// Most candidates that one run analyses.
pub const MAX_CANDIDATES: usize = 10;

/// The address of the search for the candidates of the tier named `tier`.
pub open spec fn candidates_url_text(tier: Seq<char>) -> Seq<char> {
    "https://api.github.com/search/repositories?q="@ + search_query_text(tier_bounds_of(tier))
        + "&sort=updated&order=desc&per_page=20"@
}

/// A repository of the search as a candidate: its name, and what is known
/// of it.
pub open spec fn as_candidate(repo: CandidateRepo) -> (String, Metadata) {
    (
        repo.full_name,
        Metadata {
            stars: repo.stars,
            forks: repo.forks,
            language: repo.language,
            created_at: repo.created_at,
            last_push: repo.pushed_at,
        },
    )
}

/// The candidates among the repositories that the search gave: the first
/// [`MAX_CANDIDATES`] of them, or all where there are fewer.
pub open spec fn candidates_of(items: Seq<CandidateRepo>) -> Seq<(String, Metadata)> {
    items.take(
        if items.len() <= MAX_CANDIDATES {
            items.len() as int
        } else {
            MAX_CANDIDATES as int
        },
    ).map_values(|repo: CandidateRepo| as_candidate(repo))
}

/// The address of the search for the candidates of the tier named `tier`.
pub fn candidates_url(tier: &str) -> (url: String)
    ensures
        url@ == candidates_url_text(tier@),
{
    let query = tier_bounds(tier).search_query();
    let mut url = String::from_str("https://api.github.com/search/repositories?q=");
    url.append(query.as_str());
    url.append("&sort=updated&order=desc&per_page=20");
    url
}

/// Picks the candidates among the repositories that the search gave.
pub fn scan_repositories(items: Vec<CandidateRepo>) -> (candidates: Vec<(String, Metadata)>)
    ensures
        candidates@ == candidates_of(items@),
{
    let mut candidates: Vec<(String, Metadata)> = Vec::new();
    let ghost all = items@;
    for repo in it: items
        invariant
            it.seq() == all,
            candidates@ == candidates_of(all.take(it.index() as int)),
    {
        proof {
            let before = all.take(it.index() as int);
            let upto = all.take(it.index() + 1);
            assert(upto.drop_last() =~= before);
            assert(upto.last() == repo);
            if before.len() < MAX_CANDIDATES {
                assert(upto.take(upto.len() as int) =~= upto);
                assert(before.take(before.len() as int) =~= before);
                assert(candidates_of(upto) =~= candidates_of(before).push(as_candidate(repo)));
            } else {
                assert(upto.take(MAX_CANDIDATES as int) =~= before.take(MAX_CANDIDATES as int));
            }
        }
        if candidates.len() < MAX_CANDIDATES {
            candidates.push(
                (
                    repo.full_name,
                    Metadata {
                        stars: repo.stars,
                        forks: repo.forks,
                        language: repo.language,
                        created_at: repo.created_at,
                        last_push: repo.pushed_at,
                    },
                ),
            );
        }
    }
    assert(all.take(all.len() as int) =~= all);
    candidates
}

} // verus!
