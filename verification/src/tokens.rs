//! The token counter: a pure, deterministic count of LLM tokens in a text,
//! used to size budgets and context windows.
use vstd::prelude::*;

verus! {

use crate::models::MaxTokens;

/// Number of tokens the p50k tokenizer family assigns to a text. The
/// tokenization algorithm lives in the tiktoken-rs crate; only that the count
/// is a function of the text alone is relied on, so it is left uninterpreted.
pub uninterp spec fn token_count_of(text: Seq<char>) -> nat;

/// Relies on tiktoken_rs::p50k_base and CoreBPE::encode_with_special_tokens:
/// the token sequence is a deterministic function of the text alone, since
/// the p50k encoder table is a fixed asset embedded in the crate. Panics only
/// if that embedded asset fails to parse, a startup precondition independent
/// of any input.
#[verifier::external_body]
fn p50k_count(text: &str) -> (n: usize)
    ensures
        n == token_count_of(text@),
{
    let bpe = tiktoken_rs::p50k_base().expect("embedded p50k tokenizer assets must parse");
    bpe.encode_with_special_tokens(text).len()
}

/// Count the number of tokens in the string.
pub fn count_tokens(text: &String) -> (n: MaxTokens)
    ensures
        n == token_count_of(text@),
{
    p50k_count(text.as_str()) as MaxTokens
}

} // verus!
