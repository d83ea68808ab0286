//! Token counting over the final text blob, with the cl100k scheme.

use vstd::prelude::*;

verus! {

/// How many tokens the cl100k encoding produces for a text.  The encoding is
/// a fixed table shipped with the tokenizer, so the count is a function of
/// the text alone.
pub uninterp spec fn cl100k_token_count(text: Seq<char>) -> nat;

/// Whether tokenizing a text under the cl100k scheme succeeds.  Initializing
/// the tokenizer parses a fixed table shipped with it, and tokenizing can
/// fail only on a regex-engine limit, so success too is a function of the
/// text alone.
pub uninterp spec fn cl100k_ok(text: Seq<char>) -> bool;

/// Relies on `tiktoken_rs::cl100k_base`, `CoreBPE::special_tokens` and
/// `CoreBPE::encode`: the cl100k vocabulary is a fixed table, so whether
/// tokenization succeeds, and the count it then produces, depend on the text
/// alone.  `None` when the tokenizer fails to initialize or the tokenization
/// errors out.
#[verifier::external_body]
fn cl100k_count(text: &str) -> (r: Option<usize>)
    ensures
        r is Some <==> cl100k_ok(text@),
        r matches Some(n) ==> n as nat == cl100k_token_count(text@),
{
    let bpe = match tiktoken_rs::cl100k_base() {
        Ok(b) => b,
        Err(_) => {
            return None;
        },
    };
    let specials = bpe.special_tokens();
    match bpe.encode(text, &specials) {
        Ok((ranks, _)) => Some(ranks.len()),
        Err(_) => None,
    }
}

/// Counts the tokens of `text` under the cl100k scheme.  A count comes back
/// exactly when the tokenizer succeeds on this text; `None` aborts the run.
pub fn count_tokens(text: &str) -> (r: Option<usize>)
    ensures
        r is Some <==> cl100k_ok(text@),
        r matches Some(n) ==> n as nat == cl100k_token_count(text@),
{
    cl100k_count(text)
}

/// Counting tokens is a pure function of the text: on the same blob the
/// tokenizer succeeds or fails the same way, and a repeated run reports the
/// same count.
pub proof fn lemma_token_count_deterministic(a: Seq<char>, b: Seq<char>)
    requires
        a == b,
    ensures
        cl100k_ok(a) == cl100k_ok(b),
        cl100k_token_count(a) == cl100k_token_count(b),
{
}

} // verus!
