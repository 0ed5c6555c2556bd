//! The model catalog: the LLM variants the engine knows, their canonical
//! names, their context-window capacities, and the default response token
//! budget policy.
use vstd::prelude::*;

verus! {

/// Token counts and token budgets.
pub type MaxTokens = u128;

/// The chat language models that are available to use.
#[derive(PartialEq, Eq, Clone, Debug, Copy, Structural)]
pub enum Models {
    GPT3,
    GPT4,
}

/// The canonical name of a model variant.
pub open spec fn model_name_spec(model: Models) -> Seq<char> {
    match model {
        Models::GPT3 => "gpt-3.5-turbo"@,
        Models::GPT4 => "gpt-4"@,
    }
}

/// Maximum number of tokens a model variant can process at once: its
/// context-window capacity.
pub open spec fn max_context_tokens_spec(model: Models) -> MaxTokens {
    match model {
        Models::GPT3 => 4096,
        Models::GPT4 => 8192,
    }
}

/// Default token budget for a response: a third of the capacity that the
/// context has not already consumed, reserving room for the system directive,
/// the echoed context, and tokenizer estimation error.
pub open spec fn default_max_response_tokens_spec(
    model: Models,
    tokens_in_context: MaxTokens,
) -> MaxTokens
    recommends
        tokens_in_context <= max_context_tokens_spec(model),
{
    ((max_context_tokens_spec(model) - tokens_in_context) / 3) as MaxTokens
}

impl Models {
    /// Get the model name.
    pub fn name(&self) -> (r: &'static str)
        ensures
            r@ == model_name_spec(*self),
    {
        match self {
            Self::GPT3 => "gpt-3.5-turbo",
            Self::GPT4 => "gpt-4",
        }
    }

    /// Default maximum tokens to respond with for a prompt.
    ///
    /// `tokens_in_context` is the current number of tokens that are part of
    /// the context. It must not surpass [`Models::max_context_tokens`].
    pub fn default_max_response_tokens(
        model: &Models,
        tokens_in_context: MaxTokens,
    ) -> (r: MaxTokens)
        requires
            tokens_in_context <= max_context_tokens_spec(*model),
        ensures
            r == default_max_response_tokens_spec(*model, tokens_in_context),
    {
        (model.max_context_tokens() - tokens_in_context) / 3
    }

    /// Maximum number of tokens that can be processed at once by the model.
    pub fn max_context_tokens(&self) -> (r: MaxTokens)
        ensures
            r == max_context_tokens_spec(*self),
    {
        match self {
            Self::GPT3 => 4_096,
            Self::GPT4 => 8_192,
        }
    }
}

} // verus!
