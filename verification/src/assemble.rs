//! The context assembler: builds the ordered request payload sent to the LLM
//! from a system directive and the messages of the current story part, each
//! rendered with its mapped role and an attached display name.
use vstd::prelude::*;

verus! {

use vstd::string::StringExecFns;
use crate::WeaveError;
use crate::digits::{dec_str, u128_to_string};
use crate::models::MaxTokens;
use crate::roles::{Role, role_of, parse_role};
use crate::story::{StoryPart, MessageView};

/// One role-tagged, optionally named, textual entry of the request payload.
pub struct RequestMessage {
    pub role: Role,
    pub name: Option<String>,
    pub content: String,
}

/// The mathematical value of a [`RequestMessage`].
#[verifier::ext_equal]
pub struct RequestMessageView {
    pub role: Role,
    pub name: Option<Seq<char>>,
    pub content: Seq<char>,
}

impl View for RequestMessage {
    type V = RequestMessageView;

    open spec fn view(&self) -> RequestMessageView {
        RequestMessageView {
            role: self.role,
            name: match self.name {
                Some(n) => Some(n@),
                None => None,
            },
            content: self.content@,
        }
    }
}

/// The view of an optional string.
pub open spec fn opt_view(o: Option<String>) -> Option<Seq<char>> {
    match o {
        Some(s) => Some(s@),
        None => None,
    }
}

/// The effective display name of a turn: the username, with the supplied
/// pseudo-username appended literally (no separator) when one is given.
pub open spec fn composed_name(username: Seq<char>, pseudo: Option<Seq<char>>) -> Seq<char> {
    match pseudo {
        Some(p) => username + p,
        None => username,
    }
}

/// Compose the effective display name for one turn. It is composed once per
/// call and reused for every message the call renders.
pub fn compose_username(username: String, pseudo_username: Option<String>) -> (r: String)
    ensures
        r@ == composed_name(username@, opt_view(pseudo_username)),
{
    match pseudo_username {
        Some(pseudo) => username.concat(pseudo.as_str()),
        None => username,
    }
}

/// An unnamed system-role entry, as used for the leading system directive and
/// the trailing word-budget instruction.
pub open spec fn system_entry(content: Seq<char>) -> RequestMessageView {
    RequestMessageView { role: Role::System, name: None, content: content }
}

/// How one stored message renders into the payload: its role mapped onto the
/// LLM role enumeration, the display name `Loreweaver` for system entries and
/// the turn's composed display name for user and assistant entries.
pub open spec fn rendered_entry(m: MessageView, turn_name: Seq<char>) -> RequestMessageView
    recommends
        role_of(m.role) is Some,
{
    RequestMessageView {
        role: match role_of(m.role) {
            Some(r) => r,
            None => Role::System,
        },
        name: match role_of(m.role) {
            Some(Role::System) => Some("Loreweaver"@),
            _ => Some(turn_name),
        },
        content: m.content,
    }
}

/// Build the ordered request payload: the system directive first, then every
/// message of the story part in conversational order. Fails, mapping nothing
/// silently, exactly when a stored message carries an unrecognized role.
pub fn assemble_context(system: String, story_part: &StoryPart, turn_name: &String) -> (r: Result<
    Vec<RequestMessage>,
    WeaveError,
>)
    ensures
        (r is Ok) <==> (forall|i: int|
            0 <= i < story_part@.messages.len() ==> role_of(
                #[trigger] story_part@.messages[i].role,
            ) is Some),
        r matches Ok(v) ==> {
            &&& v@.len() == story_part@.messages.len() + 1
            &&& v@[0]@ == system_entry(system@)
            &&& forall|i: int|
                0 <= i < story_part@.messages.len() ==> (#[trigger] v@[i + 1])@ == rendered_entry(
                    story_part@.messages[i],
                    turn_name@,
                )
        },
        r matches Err(e) ==> e is BadOpenAIRole,
{
    let ghost sys_view = system@;
    let mut out: Vec<RequestMessage> = Vec::new();
    out.push(RequestMessage { role: Role::System, name: None, content: system });
    let n: usize = story_part.context_messages.len();
    let mut i: usize = 0;
    while i < n
        invariant
            i <= n,
            n == story_part@.messages.len(),
            out@.len() == i + 1,
            out@[0]@ == system_entry(sys_view),
            forall|j: int|
                0 <= j < i ==> role_of(#[trigger] story_part@.messages[j].role) is Some,
            forall|j: int|
                0 <= j < i ==> (#[trigger] out@[j + 1])@ == rendered_entry(
                    story_part@.messages[j],
                    turn_name@,
                ),
        decreases n - i,
    {
        let m = &story_part.context_messages[i];
        match parse_role(&m.role) {
            None => {
                proof {
                    assert(role_of(story_part@.messages[i as int].role) is None);
                }
                return Err(WeaveError::BadOpenAIRole);
            },
            Some(role) => {
                let name = match role {
                    Role::System => String::from_str("Loreweaver"),
                    _ => turn_name.clone(),
                };
                out.push(RequestMessage { role, name: Some(name), content: m.content.clone() });
                proof {
                    assert((out@[i + 1])@ =~= rendered_entry(
                        story_part@.messages[i as int],
                        turn_name@,
                    ));
                }
            },
        }
        i += 1;
    }
    Ok(out)
}

/// The request-only trailing instruction that communicates the word budget;
/// it is never persisted back into the story part.
pub open spec fn instruction_of(max_words: MaxTokens) -> Seq<char> {
    "Respond with "@ + dec_str(max_words as nat) + " words or less"@
}

/// Compose the word-budget instruction for a response.
pub fn budget_instruction(max_words: MaxTokens) -> (s: String)
    ensures
        s@ == instruction_of(max_words),
{
    let s = String::from_str("Respond with ").concat(u128_to_string(max_words).as_str()).concat(
        " words or less",
    );
    proof {
        assert(s@ =~= instruction_of(max_words));
    }
    s
}

} // verus!
