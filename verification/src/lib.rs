//! Scoring and ranking of open-source repositories.
//!
//! The crate turns raw signals about a repository (recent commits, the
//! top-level directory listing, issues, pull requests, age, stars and forks)
//! into four factor scores, combines them into a weighted total and a
//! recommendation, and blends in an optional qualitative review.
//!
//! Every function here is pure: fetching the signals is left to the caller.

pub mod score;
pub mod time;
pub mod text;
pub mod analyzer;
pub mod factors;
pub mod aggregate;
pub mod ranking;
pub mod hidden_gems;
pub mod ai_reviewer;
pub mod merge;
pub mod pipeline;
pub mod scanner;
pub mod urls;
