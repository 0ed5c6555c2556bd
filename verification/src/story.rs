//! The versioned conversation record: messages, participant roster and the
//! cumulative token count of one story part, together with the laws that
//! govern how a prompt cycle may grow it.
use vstd::prelude::*;

verus! {

/// A platform agnostic type representing a user's account ID.
pub type AccountId = u64;

/// Context message that represents a single message in a [`StoryPart`].
#[derive(Clone, Debug)]
pub struct ContextMessage {
    pub role: String,
    pub account_id: Option<String>,
    pub username: Option<String>,
    pub content: String,
    pub timestamp: String,
}

/// The mathematical value of a [`ContextMessage`].
#[verifier::ext_equal]
pub struct MessageView {
    pub role: Seq<char>,
    pub account_id: Option<Seq<char>>,
    pub username: Option<Seq<char>>,
    pub content: Seq<char>,
    pub timestamp: Seq<char>,
}

impl View for ContextMessage {
    type V = MessageView;

    open spec fn view(&self) -> MessageView {
        MessageView {
            role: self.role@,
            account_id: match self.account_id {
                Some(a) => Some(a@),
                None => None,
            },
            username: match self.username {
                Some(u) => Some(u@),
                None => None,
            },
            content: self.content@,
            timestamp: self.timestamp@,
        }
    }
}

impl Default for ContextMessage {
    /// An empty message: empty strings, no participant, no display name.
    fn default() -> (m: Self)
        ensures
            m@.role.len() == 0,
            m@.account_id is None,
            m@.username is None,
            m@.content.len() == 0,
            m@.timestamp.len() == 0,
    {
        ContextMessage {
            role: String::new(),
            account_id: None,
            username: None,
            content: String::new(),
            timestamp: String::new(),
        }
    }
}

/// Represents a single part of a story containing a list of messages along
/// with other metadata.
///
/// The LLM can only hold a limited number of tokens in the entire message
/// history, so every prompt cycle tracks the number of `context_tokens` in
/// the current story part against the capacity of the configured model.
#[derive(Clone, Debug)]
pub struct StoryPart {
    /// Participants that are part of the story. When generating a new story
    /// part, the same roster is copied over so the story remains consistent
    /// throughout each part.
    pub players: Vec<AccountId>,
    /// Total number of LLM tokens in the story part.
    pub context_tokens: u16,
    /// List of [`ContextMessage`]s in the story part.
    pub context_messages: Vec<ContextMessage>,
}

/// The mathematical value of a [`StoryPart`].
#[verifier::ext_equal]
pub struct StoryPartView {
    pub players: Seq<AccountId>,
    pub context_tokens: u16,
    pub messages: Seq<MessageView>,
}

impl View for StoryPart {
    type V = StoryPartView;

    open spec fn view(&self) -> StoryPartView {
        StoryPartView {
            players: self.players@,
            context_tokens: self.context_tokens,
            messages: self.context_messages@.map_values(|m: ContextMessage| m@),
        }
    }
}

impl Default for StoryPart {
    /// The empty default segment used on first access for an identity.
    fn default() -> (s: Self)
        ensures
            s@.players.len() == 0,
            s@.context_tokens == 0,
            s@.messages.len() == 0,
    {
        StoryPart { players: Vec::new(), context_tokens: 0, context_messages: Vec::new() }
    }
}

/// A story part after one more message: the roster and the cumulative token
/// count carry over unchanged, the message goes to the end.
pub open spec fn with_message(s: StoryPartView, m: MessageView) -> StoryPartView {
    StoryPartView { messages: s.messages.push(m), ..s }
}

/// The user message appended for one turn: role `user`, the composed display
/// name, no participant identity.
pub open spec fn user_message_view(content: Seq<char>, name: Seq<char>, timestamp: Seq<char>) -> MessageView {
    MessageView {
        role: "user"@,
        account_id: None,
        username: Some(name),
        content: content,
        timestamp: timestamp,
    }
}

/// The assistant message appended for one turn: role `assistant`, no display
/// name, no participant identity.
pub open spec fn assistant_message_view(content: Seq<char>, timestamp: Seq<char>) -> MessageView {
    MessageView {
        role: "assistant"@,
        account_id: None,
        username: None,
        content: content,
        timestamp: timestamp,
    }
}

/// `m` is the user message of a turn with this content and display name,
/// whatever its timestamp.
pub open spec fn user_turn_message(m: MessageView, content: Seq<char>, name: Seq<char>) -> bool {
    m == user_message_view(content, name, m.timestamp)
}

/// `m` is the assistant message of a turn with this content, whatever its
/// timestamp.
pub open spec fn assistant_turn_message(m: MessageView, content: Seq<char>) -> bool {
    m == assistant_message_view(content, m.timestamp)
}

impl StoryPart {
    /// Append one message to the story part. The roster and the cumulative
    /// token count are tracked and forwarded, never recomputed here.
    pub fn push_message(&mut self, message: ContextMessage)
        ensures
            final(self)@ == with_message(old(self)@, message@),
    {
        let ghost prior = self@;
        self.context_messages.push(message);
        proof {
            assert(self@.messages =~= prior.messages.push(message@));
            assert(self@ =~= with_message(prior, message@));
        }
    }
}

/// The current segment for an identity: the most recent persisted segment
/// when one was found, or the empty default segment on first use.
pub fn current_segment(loaded: Option<StoryPart>) -> (s: StoryPart)
    ensures
        loaded matches Some(p) ==> s@ == p@,
        loaded is None ==> (s@.players.len() == 0 && s@.context_tokens == 0 && s@.messages.len()
            == 0),
{
    match loaded {
        Some(p) => p,
        None => StoryPart::default(),
    }
}

/// Law: a completed prompt cycle appends exactly one user message and then
/// exactly one assistant message, in chronological order, leaving the roster
/// and the cumulative token count unchanged.
pub proof fn lemma_turn_appends_exactly_one_pair(s0: StoryPartView, u: MessageView, a: MessageView)
    ensures
        with_message(with_message(s0, u), a).messages =~= s0.messages + seq![u, a],
        with_message(with_message(s0, u), a).messages.len() == s0.messages.len() + 2,
        with_message(with_message(s0, u), a).players == s0.players,
        with_message(with_message(s0, u), a).context_tokens == s0.context_tokens,
{
    assert(with_message(with_message(s0, u), a).messages =~= s0.messages + seq![u, a]);
}

/// One story part after appending a sequence of user/assistant message pairs,
/// one completed prompt cycle each.
pub open spec fn after_pairs(s0: StoryPartView, pairs: Seq<(MessageView, MessageView)>) -> StoryPartView
    decreases pairs.len(),
{
    if pairs.len() == 0 {
        s0
    } else {
        after_pairs(with_message(with_message(s0, pairs[0].0), pairs[0].1), pairs.drop_first())
    }
}

proof fn lemma_after_pairs_general(s0: StoryPartView, pairs: Seq<(MessageView, MessageView)>)
    ensures
        after_pairs(s0, pairs).messages.len() == s0.messages.len() + 2 * pairs.len(),
        forall|j: int| 0 <= j < s0.messages.len() ==> after_pairs(s0, pairs).messages[j] == s0.messages[j],
        forall|i: int|
            0 <= i < pairs.len() ==> after_pairs(s0, pairs).messages[s0.messages.len() + 2 * i]
                == (#[trigger] pairs[i]).0,
        forall|i: int|
            0 <= i < pairs.len() ==> after_pairs(s0, pairs).messages[s0.messages.len() + 2 * i + 1]
                == (#[trigger] pairs[i]).1,
        after_pairs(s0, pairs).players == s0.players,
        after_pairs(s0, pairs).context_tokens == s0.context_tokens,
    decreases pairs.len(),
{
    if pairs.len() > 0 {
        let u = pairs[0].0;
        let a = pairs[0].1;
        let s1 = with_message(with_message(s0, u), a);
        let rest = pairs.drop_first();
        let n0 = s0.messages.len() as int;
        assert(s1.messages.len() == n0 + 2);
        assert(forall|j: int| 0 <= j < n0 ==> s1.messages[j] == s0.messages[j]);
        assert(s1.messages[n0] == u);
        assert(s1.messages[n0 + 1] == a);
        lemma_after_pairs_general(s1, rest);
        assert(after_pairs(s0, pairs) == after_pairs(s1, rest));
        assert(forall|i: int| 0 <= i < rest.len() ==> #[trigger] rest[i] == pairs[i + 1]);
        assert forall|i: int| 0 <= i < pairs.len() implies after_pairs(s0, pairs).messages[n0 + 2 * i]
            == (#[trigger] pairs[i]).0 by {
            if i == 0 {
                assert(after_pairs(s1, rest).messages[n0] == s1.messages[n0]);
            } else {
                assert(pairs[i] == rest[i - 1]);
                assert(after_pairs(s1, rest).messages[s1.messages.len() + 2 * (i - 1)] == rest[i
                    - 1].0);
                assert(s1.messages.len() + 2 * (i - 1) == n0 + 2 * i);
            }
        };
        assert forall|i: int| 0 <= i < pairs.len() implies after_pairs(s0, pairs).messages[n0 + 2
            * i + 1] == (#[trigger] pairs[i]).1 by {
            if i == 0 {
                assert(after_pairs(s1, rest).messages[n0 + 1] == s1.messages[n0 + 1]);
            } else {
                assert(pairs[i] == rest[i - 1]);
                assert(after_pairs(s1, rest).messages[s1.messages.len() + 2 * (i - 1) + 1] == rest[
                    i - 1].1);
                assert(s1.messages.len() + 2 * (i - 1) + 1 == n0 + 2 * i + 1);
            }
        };
    }
}

/// Law: appending N user/assistant message pairs to an initially empty story
/// part yields a segment with exactly 2N messages in chronological order,
/// with the roster and the cumulative token count unchanged.
pub proof fn lemma_pairs_grow_segment_in_order(s0: StoryPartView, pairs: Seq<(MessageView, MessageView)>)
    requires
        s0.messages.len() == 0,
    ensures
        after_pairs(s0, pairs).messages.len() == 2 * pairs.len(),
        forall|i: int|
            0 <= i < pairs.len() ==> after_pairs(s0, pairs).messages[2 * i] == (#[trigger] pairs[i]).0,
        forall|i: int|
            0 <= i < pairs.len() ==> after_pairs(s0, pairs).messages[2 * i + 1]
                == (#[trigger] pairs[i]).1,
        after_pairs(s0, pairs).players == s0.players,
        after_pairs(s0, pairs).context_tokens == s0.context_tokens,
{
    lemma_after_pairs_general(s0, pairs);
}

} // verus!
