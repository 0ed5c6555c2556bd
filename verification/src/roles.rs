//! Mapping from the textual roles stored in a story part onto the target
//! LLM's role enumeration. The mapping is total and deterministic over the
//! three recognized role strings; every other string is rejected, never
//! silently coerced.
use vstd::prelude::*;

verus! {

use vstd::string::StringExecFns;

/// The target LLM's role enumeration.
#[derive(PartialEq, Eq, Clone, Copy, Debug, Structural)]
pub enum Role {
    System,
    Assistant,
    User,
}

/// The role a stored role string denotes: exactly `system`, `assistant` and
/// `user` are recognized; everything else maps to `None`.
pub open spec fn role_of(role: Seq<char>) -> Option<Role> {
    if role == "system"@ {
        Some(Role::System)
    } else if role == "assistant"@ {
        Some(Role::Assistant)
    } else if role == "user"@ {
        Some(Role::User)
    } else {
        None
    }
}

/// Map a stored role string onto the LLM role enumeration, rejecting any
/// string outside the three recognized values.
pub fn parse_role(role: &String) -> (r: Option<Role>)
    ensures
        r == role_of(role@),
{
    let system = String::from_str("system");
    let assistant = String::from_str("assistant");
    let user = String::from_str("user");
    if *role == system {
        Some(Role::System)
    } else if *role == assistant {
        Some(Role::Assistant)
    } else if *role == user {
        Some(Role::User)
    } else {
        None
    }
}

} // verus!
