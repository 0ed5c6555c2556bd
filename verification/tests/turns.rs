use loreweaver::models::Models;
use loreweaver::story::{ContextMessage, StoryPart};
use loreweaver::{Config, Get, Loom, Loreweaver, WeaveError, WeavingID};

pub struct TestModel;

impl Get<Models> for TestModel {
    fn get() -> Models {
        Models::GPT3
    }
}

pub struct TestId(pub String);

impl WeavingID for TestId {
    fn base_key(&self) -> String {
        self.0.clone()
    }
}

pub struct TestConfig;

impl Config for TestConfig {
    type Model = TestModel;
    type WeavingID = TestId;
}

type Weaver = Loreweaver<TestConfig>;

fn assert_same_part(a: &StoryPart, b: &StoryPart) {
    assert_eq!(a.players, b.players);
    assert_eq!(a.context_tokens, b.context_tokens);
    assert_eq!(a.context_messages.len(), b.context_messages.len());
    for (x, y) in a.context_messages.iter().zip(b.context_messages.iter()) {
        assert_eq!(x.role, y.role);
        assert_eq!(x.account_id, y.account_id);
        assert_eq!(x.username, y.username);
        assert_eq!(x.content, y.content);
        assert_eq!(x.timestamp, y.timestamp);
    }
}

fn persisted_part() -> StoryPart {
    StoryPart {
        players: vec![42],
        context_tokens: 1000,
        context_messages: vec![ContextMessage {
            role: "user".to_string(),
            account_id: None,
            username: Some("Bob-the-bard".to_string()),
            content: "Begin the tale".to_string(),
            timestamp: "1970-01-01T00:00:00+00:00".to_string(),
        }],
    }
}

#[test]
fn a_turn_begins_with_the_user_message_appended_in_memory() {
    let plan = Weaver::begin_turn(
        Models::GPT3,
        persisted_part(),
        "You are a weaver of tales".to_string(),
        "Hello".to_string(),
        "Bob".to_string(),
        Some("-the-bard".to_string()),
    )
    .unwrap();

    assert_eq!(plan.story_part.players, vec![42]);
    assert_eq!(plan.story_part.context_tokens, 1000);
    assert_eq!(plan.story_part.context_messages.len(), 2);
    let appended = &plan.story_part.context_messages[1];
    assert_eq!(appended.role, "user");
    assert_eq!(appended.account_id, None);
    assert_eq!(appended.username.as_deref(), Some("Bob-the-bard"));
    assert_eq!(appended.content, "Hello");
    assert!(!appended.timestamp.is_empty());

    // Budget from the pre-append token count: (4096 - 1000) / 3 = 1032,
    // then 75% of a word per token: 774.
    assert_eq!(plan.max_response_words, 774);

    // Directive first, then history in order (display names attached), then
    // the request-only word-budget instruction.
    assert_eq!(plan.request.len(), 4);
    assert_eq!(plan.request[0].name, None);
    assert_eq!(plan.request[0].content, "You are a weaver of tales");
    assert_eq!(plan.request[1].name.as_deref(), Some("Bob-the-bard"));
    assert_eq!(plan.request[1].content, "Begin the tale");
    assert_eq!(plan.request[2].name.as_deref(), Some("Bob-the-bard"));
    assert_eq!(plan.request[2].content, "Hello");
    assert_eq!(plan.request[3].name, None);
    assert_eq!(plan.request[3].content, "Respond with 774 words or less");
}

#[test]
fn a_successful_turn_persists_exactly_one_pair_and_returns_its_content() {
    // The store stands for the storage collaborator: the driver saves only
    // what complete_turn hands back.
    let mut store: Vec<StoryPart> = vec![persisted_part()];

    let loaded = store.last().unwrap().clone();
    let plan = Weaver::begin_turn(
        Models::GPT3,
        loaded,
        "You are a weaver of tales".to_string(),
        "Hello".to_string(),
        "Bob".to_string(),
        Some("-the-bard".to_string()),
    )
    .unwrap();

    let (updated, reply) =
        Weaver::complete_turn(plan.story_part, Some("Once upon a time".to_string())).unwrap();
    store.push(updated);

    let saved = store.last().unwrap();
    assert_eq!(saved.context_messages.len(), persisted_part().context_messages.len() + 2);
    let user = &saved.context_messages[1];
    let assistant = &saved.context_messages[2];
    assert_eq!(user.role, "user");
    assert_eq!(user.content, "Hello");
    assert_eq!(assistant.role, "assistant");
    assert_eq!(assistant.username, None);
    assert_eq!(assistant.account_id, None);
    assert_eq!(reply, "Once upon a time");
    assert_eq!(assistant.content, reply);
    assert_eq!(saved.players, persisted_part().players);
    assert_eq!(saved.context_tokens, persisted_part().context_tokens);
}

#[test]
fn a_failed_llm_call_leaves_the_persisted_part_untouched() {
    let mut store: Vec<StoryPart> = vec![persisted_part()];

    let loaded = store.last().unwrap().clone();
    let plan = Weaver::begin_turn(
        Models::GPT3,
        loaded,
        "You are a weaver of tales".to_string(),
        "Hello".to_string(),
        "Bob".to_string(),
        None,
    )
    .unwrap();

    // The LLM collaborator fails; the driver surfaces the error and never
    // reaches complete_turn, so nothing is saved.
    let _abandoned = plan;
    let outcome: Result<String, WeaveError> = Err(WeaveError::FailedPromptOpenAI);
    assert!(matches!(outcome, Err(WeaveError::FailedPromptOpenAI)));

    assert_eq!(store.len(), 1);
    assert_same_part(store.last().unwrap(), &persisted_part());
}

#[test]
fn missing_completion_content_is_a_hard_failure() {
    let plan = Weaver::begin_turn(
        Models::GPT3,
        StoryPart::default(),
        "directive".to_string(),
        "Hello".to_string(),
        "Bob".to_string(),
        None,
    )
    .unwrap();
    let r = Weaver::complete_turn(plan.story_part, None);
    assert!(matches!(r, Err(WeaveError::FailedToGetContent)));
}

#[test]
fn a_bad_stored_role_aborts_the_turn() {
    let mut part = persisted_part();
    part.context_messages.push(ContextMessage {
        role: "narrator".to_string(),
        account_id: None,
        username: None,
        content: "out of band".to_string(),
        timestamp: "1970-01-01T00:00:00+00:00".to_string(),
    });
    let r = Weaver::begin_turn(
        Models::GPT3,
        part,
        "directive".to_string(),
        "Hello".to_string(),
        "Bob".to_string(),
        None,
    );
    assert!(matches!(r, Err(WeaveError::BadOpenAIRole)));
}

#[test]
fn pairs_append_in_chronological_order_with_roster_unchanged() {
    let mut part = StoryPart::default();
    part.players = vec![7, 8];
    let n: usize = 3;
    for i in 0..n {
        let plan = Weaver::begin_turn(
            Models::GPT4,
            part,
            "directive".to_string(),
            format!("question {}", i),
            "Bob".to_string(),
            None,
        )
        .unwrap();
        let (updated, _reply) =
            Weaver::complete_turn(plan.story_part, Some(format!("answer {}", i))).unwrap();
        part = updated;
    }
    assert_eq!(part.context_messages.len(), 2 * n);
    for i in 0..n {
        assert_eq!(part.context_messages[2 * i].role, "user");
        assert_eq!(part.context_messages[2 * i].content, format!("question {}", i));
        assert_eq!(part.context_messages[2 * i + 1].role, "assistant");
        assert_eq!(part.context_messages[2 * i + 1].content, format!("answer {}", i));
    }
    assert_eq!(part.players, vec![7, 8]);
}

#[test]
fn the_default_segment_is_empty() {
    let part = StoryPart::default();
    assert_eq!(part.players.len(), 0);
    assert_eq!(part.context_tokens, 0);
    assert_eq!(part.context_messages.len(), 0);
}

#[test]
fn loading_nothing_yields_the_empty_default_segment() {
    let fresh = loreweaver::story::current_segment(None);
    assert_eq!(fresh.players.len(), 0);
    assert_eq!(fresh.context_tokens, 0);
    assert_eq!(fresh.context_messages.len(), 0);

    let found = loreweaver::story::current_segment(Some(persisted_part()));
    assert_same_part(&found, &persisted_part());
}
