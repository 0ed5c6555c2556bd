//! Loreweaver: a context-assembly and token-budget engine for multi-turn
//! conversations with an LLM chat endpoint.
//!
//! The engine tracks a conversation segment (a [`StoryPart`]) of role-tagged
//! messages, assembles the ordered request payload for the next prompt, and
//! computes the response word budget from the model's context-window capacity
//! and the tokens already spent. Loading, saving and the network call itself
//! are suspension points performed by the surrounding runtime; the decisions
//! between them are verified here: [`Loom::begin_turn`] turns the loaded
//! segment and the new user message into a request plan, and
//! [`Loom::complete_turn`] turns the LLM's answer into the segment to
//! persist and the reply to return.
use vstd::prelude::*;

pub mod assemble;
pub mod digits;
pub mod models;
pub mod roles;
pub mod story;
pub mod tokens;

verus! {

use core::marker::PhantomData;
use vstd::string::StringExecFns;
use crate::assemble::{
    RequestMessage, assemble_context, budget_instruction, composed_name, compose_username,
    instruction_of, opt_view, system_entry, rendered_entry,
};
use crate::models::{MaxTokens, Models, default_max_response_tokens_spec, max_context_tokens_spec};
use crate::roles::{Role, role_of};
use crate::story::{
    ContextMessage, StoryPart, assistant_turn_message, user_message_view, user_turn_message,
    with_message,
};

/// Getter for an externally configured value.
pub trait Get<T> {
    fn get() -> T;
}

/// A trait representing a unique identifier for a weaving.
pub trait WeavingID {
    /// Returns the base key for a given [`WeavingID`].
    fn base_key(&self) -> String;
}

/// Specification for a storage handler.
///
/// The implementation of this trait is the external persistence collaborator
/// used to store and retrieve story parts; its errors are wrapped by the
/// engine, never interpreted.
pub trait StorageHandler<Key: WeavingID> {
    /// The error type for the storage handler.
    type Error;

    /// Adds a [`StoryPart`] to storage for a given [`WeavingID`], optionally
    /// signaling the start of a new persisted revision rather than an
    /// overwrite in place.
    fn save_story_part(
        weaving_id: &Key,
        story_part: StoryPart,
        increment: bool,
    ) -> Result<(), Self::Error>;

    /// Gets the last [`StoryPart`] from storage for a given [`WeavingID`].
    fn get_last_story_part(weaving_id: &Key) -> Result<Option<StoryPart>, Self::Error>;
}

/// A trait representing the configuration for a Loreweaver server.
pub trait Config {
    /// Getter for the model to use.
    type Model: Get<Models>;

    /// Type alias encompassing a server id and a story id, used mostly for
    /// querying blob storage in the form of a path.
    type WeavingID: WeavingID;
}

/// Error reported by the storage collaborator; carried through, not
/// interpreted.
#[derive(Debug)]
pub struct StorageError {
    pub message: String,
}

/// The error taxonomy surfaced by a prompt cycle.
#[derive(Debug)]
pub enum WeaveError {
    /// Failed to prompt the LLM endpoint.
    FailedPromptOpenAI,
    /// Failed to get content from the LLM response.
    FailedToGetContent,
    /// A bad LLM role was supplied.
    BadOpenAIRole,
    /// Storage error.
    Storage(StorageError),
}

/// Everything one prompt cycle carries across its LLM suspension point: the
/// story part with the new user message appended (not yet persisted), the
/// full ordered request payload, and the computed response word budget.
pub struct TurnPlan {
    /// The in-memory story part: the loaded segment plus the new user
    /// message. It is persisted only after the cycle completes.
    pub story_part: StoryPart,
    /// The ordered request payload: the system directive, every story
    /// message, and the trailing word-budget instruction.
    pub request: Vec<RequestMessage>,
    /// The response word budget communicated by the trailing instruction.
    pub max_response_words: MaxTokens,
}

/// Relies on chrono::Utc::now and DateTime::to_rfc3339 for the timestamp of
/// a message. The result depends on the clock, so nothing is stated of it.
#[verifier::external_body]
fn now_rfc3339() -> String {
    chrono::Utc::now().to_rfc3339()
}

/// A trait that defines the core methods that [`Loreweaver`] implements.
///
/// This is the machine that drives the prompt cycle for any service that
/// needs to prompt the LLM and receive a response. The cycle is split at its
/// suspension points: the caller loads the story part, asks `begin_turn` for
/// the request plan, performs the LLM call, hands the outcome to
/// `complete_turn`, and persists the story part it returns. A failed LLM
/// call never reaches `complete_turn`, so nothing of the turn is ever
/// persisted alone.
pub trait Loom<T: Config> {
    /// Start a prompt cycle for one new user message: append the user message
    /// to the in-memory story part and produce the request payload and the
    /// response word budget, computed from the pre-append cumulative token
    /// count.
    fn begin_turn(
        model: Models,
        story_part: StoryPart,
        system: String,
        msg: String,
        username: String,
        pseudo_username: Option<String>,
    ) -> (r: Result<TurnPlan, WeaveError>)
        requires
            story_part@.context_tokens <= max_context_tokens_spec(model),
        ensures
            (r is Ok) <==> (forall|i: int|
                0 <= i < story_part@.messages.len() ==> role_of(
                    #[trigger] story_part@.messages[i].role,
                ) is Some),
            r matches Err(e) ==> e is BadOpenAIRole,
            r matches Ok(plan) ==> {
                &&& plan.story_part@ == with_message(
                    story_part@,
                    plan.story_part@.messages.last(),
                )
                &&& user_turn_message(
                    plan.story_part@.messages.last(),
                    msg@,
                    composed_name(username@, opt_view(pseudo_username)),
                )
                &&& plan.max_response_words == max_words_spec(
                    model,
                    None,
                    story_part@.context_tokens as MaxTokens,
                )
                &&& plan.request@.len() == plan.story_part@.messages.len() + 2
                &&& plan.request@[0]@ == system_entry(system@)
                &&& forall|i: int|
                    0 <= i < plan.story_part@.messages.len() ==> (#[trigger] plan.request@[i
                        + 1])@ == rendered_entry(
                        plan.story_part@.messages[i],
                        composed_name(username@, opt_view(pseudo_username)),
                    )
                &&& plan.request@.last()@ == system_entry(
                    instruction_of(plan.max_response_words),
                )
            },
    ;

    /// Finish a prompt cycle with the content extracted from the LLM's first
    /// completion choice: append the assistant message and hand back the
    /// story part to persist together with the reply for the caller. Absence
    /// of content is a hard failure; no fallback content is synthesized.
    fn complete_turn(story_part: StoryPart, content: Option<String>) -> (r: Result<
        (StoryPart, String),
        WeaveError,
    >)
        ensures
            (r is Ok) <==> (content is Some),
            content is None ==> (r matches Err(e) && e is FailedToGetContent),
            content matches Some(c) ==> (r matches Ok(pair) && {
                &&& pair.0@ == with_message(story_part@, pair.0@.messages.last())
                &&& assistant_turn_message(pair.0@.messages.last(), c@)
                &&& pair.1@ == c@
                &&& pair.1@ == pair.0@.messages.last().content
            }),
    ;
}

/// The bread & butter of Loreweaver.
///
/// All core functionality is implemented by this struct.
pub struct Loreweaver<T: Config>(PhantomData<T>);

/// Maximum number of words to return in a response: the custom budget when
/// one is supplied, else the default response token budget converted to
/// words at 75% of a word per token, floored.
pub open spec fn max_words_spec(
    model: Models,
    custom_max_tokens: Option<MaxTokens>,
    context_tokens: MaxTokens,
) -> MaxTokens
    recommends
        context_tokens <= max_context_tokens_spec(model),
{
    match custom_max_tokens {
        Some(words) => words,
        None => ((default_max_response_tokens_spec(model, context_tokens) * 3) / 4) as MaxTokens,
    }
}

impl<T: Config> Loreweaver<T> {
    /// Maximum number of words to return in a response based on maximum
    /// tokens of the model, or a `custom` supplied value.
    ///
    /// Every token equates to 75% of a word.
    pub fn max_words(
        model: Models,
        custom_max_tokens: Option<MaxTokens>,
        context_tokens: MaxTokens,
    ) -> (r: MaxTokens)
        requires
            context_tokens <= max_context_tokens_spec(model),
        ensures
            r == max_words_spec(model, custom_max_tokens, context_tokens),
    {
        let default = Models::default_max_response_tokens(&model, context_tokens);
        let max_tokens = match custom_max_tokens {
            Some(custom) => custom,
            None => return (default * 3) / 4,
        };
        max_tokens
    }
}

impl<T: Config> Loom<T> for Loreweaver<T> {
    fn begin_turn(
        model: Models,
        story_part: StoryPart,
        system: String,
        msg: String,
        username: String,
        pseudo_username: Option<String>,
    ) -> (r: Result<TurnPlan, WeaveError>) {
        let ghost s0 = story_part@;
        let ghost msg_view = msg@;
        let username_with_nick = compose_username(username, pseudo_username);
        let mut story_part = story_part;
        story_part.push_message(
            ContextMessage {
                role: String::from_str("user"),
                account_id: None,
                username: Some(username_with_nick.clone()),
                content: msg,
                timestamp: now_rfc3339(),
            },
        );
        proof {
            reveal_strlit("user");
            reveal_strlit("system");
            reveal_strlit("assistant");
            assert(role_of(story_part@.messages.last().role) is Some);
            assert(story_part@.messages.last() =~= user_message_view(
                msg_view,
                username_with_nick@,
                story_part@.messages.last().timestamp,
            ));
            assert(forall|i: int|
                0 <= i < s0.messages.len() ==> #[trigger] story_part@.messages[i]
                    == s0.messages[i]);
        }
        let mut request = match assemble_context(system, &story_part, &username_with_nick) {
            Ok(request) => request,
            Err(e) => {
                proof {
                    let j = choose|j: int|
                        0 <= j < story_part@.messages.len() && !(role_of(
                            #[trigger] story_part@.messages[j].role,
                        ) is Some);
                    assert(j < s0.messages.len());
                    assert(!(role_of(s0.messages[j].role) is Some));
                }
                return Err(e);
            },
        };
        proof {
            assert forall|i: int| 0 <= i < s0.messages.len() implies role_of(
                #[trigger] s0.messages[i].role,
            ) is Some by {
                assert(role_of(story_part@.messages[i].role) is Some);
            }
        }
        let max_response_words = Loreweaver::<T>::max_words(
            model,
            None,
            story_part.context_tokens as MaxTokens,
        );
        let ghost request_before = request@;
        request.push(
            RequestMessage {
                role: Role::System,
                name: None,
                content: budget_instruction(max_response_words),
            },
        );
        proof {
            assert(request@.last()@ =~= system_entry(instruction_of(max_response_words)));
            assert(forall|i: int|
                0 <= i < request_before.len() ==> #[trigger] request@[i] == request_before[i]);
        }
        Ok(TurnPlan { story_part, request, max_response_words })
    }

    fn complete_turn(story_part: StoryPart, content: Option<String>) -> (r: Result<
        (StoryPart, String),
        WeaveError,
    >) {
        let response_content = match content {
            Some(response_content) => response_content,
            None => {
                return Err(WeaveError::FailedToGetContent);
            },
        };
        let mut story_part = story_part;
        story_part.push_message(
            ContextMessage {
                role: String::from_str("assistant"),
                account_id: None,
                username: None,
                content: response_content.clone(),
                timestamp: now_rfc3339(),
            },
        );
        Ok((story_part, response_content))
    }
}

} // verus!
