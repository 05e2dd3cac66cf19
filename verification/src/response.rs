//! What a SearXNG instance answers.

use vstd::prelude::*;

verus! {

/// An answer of the instance.
pub struct SearxngResponse {
    pub results: Vec<SearxngResult>,
    pub query: Option<String>,
    pub number_of_results: Option<u64>,
}

/// One result of an answer.
pub struct SearxngResult {
    pub title: Option<String>,
    pub url: String,
    pub content: Option<String>,
    pub engine: Option<String>,
    pub published_date: Option<String>,
    /// The relevance score: the bits of its IEEE 754 double-precision form.
    pub score_bits: Option<u64>,
}

} // verus!
