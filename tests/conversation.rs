use clippy_assistant::history::{ConversationHistory, Message, Role, HISTORY_BOUND};
use clippy_assistant::local::{LocalAI, DEFAULT_REPLY, FAREWELL_REPLY, GREETING_REPLY, HELP_REPLY, TIME_REPLY};
use clippy_assistant::responder::{Backend, BackendError, BackendSettings, ClippyAgent, Step, EMPTY_INPUT_PROMPT};
use clippy_assistant::text::is_blank;

fn contents(v: &[Message]) -> Vec<(Role, String)> {
    v.iter().map(|m| (m.role, m.content.clone())).collect()
}

fn reply_text(s: Step) -> String {
    match s {
        Step::Reply(t) => t,
        Step::Invoke(b) => panic!("expected a reply, got an invocation of {:?}", b),
    }
}

#[test]
fn history_keeps_last_bound_messages_in_order() {
    let mut h = ConversationHistory::new(3);
    for i in 0..7 {
        h.push(Message::new(Role::User, &format!("m{}", i)));
    }
    let snap = h.snapshot();
    assert_eq!(snap.len(), 3);
    assert_eq!(snap[0].content, "m4");
    assert_eq!(snap[1].content, "m5");
    assert_eq!(snap[2].content, "m6");
}

#[test]
fn history_under_bound_keeps_everything() {
    let mut h = ConversationHistory::new(HISTORY_BOUND);
    h.push(Message::new(Role::User, "a"));
    h.push(Message::new(Role::Assistant, "b"));
    assert_eq!(h.len(), 2);
    assert_eq!(contents(&h.snapshot()), vec![(Role::User, "a".to_string()), (Role::Assistant, "b".to_string())]);
}

#[test]
fn history_bound_zero_keeps_nothing() {
    let mut h = ConversationHistory::new(0);
    h.push(Message::new(Role::User, "a"));
    assert_eq!(h.len(), 0);
}

#[test]
fn history_snapshot_is_independent() {
    let mut h = ConversationHistory::new(4);
    h.push(Message::new(Role::User, "first"));
    let snap = h.snapshot();
    h.clear();
    assert_eq!(h.len(), 0);
    assert_eq!(h.bound(), 4);
    assert_eq!(snap.len(), 1);
    assert_eq!(snap[0].content, "first");
}

#[test]
fn role_names_round_trip() {
    assert_eq!(Role::User.name(), "user");
    assert_eq!(Role::Assistant.name(), "assistant");
    assert_eq!(Role::from_name("user"), Some(Role::User));
    assert_eq!(Role::from_name("assistant"), Some(Role::Assistant));
    assert_eq!(Role::from_name("system"), None);
}

#[test]
fn local_rules_ignore_letter_case() {
    let a = LocalAI::get_response("Привет!");
    let b = LocalAI::get_response("ПРИВЕТ");
    assert_eq!(a, b);
    assert_eq!(a, GREETING_REPLY);
    assert_eq!(LocalAI::get_response("Привет!"), a);
}

#[test]
fn local_rules_categories() {
    assert_eq!(LocalAI::get_response("Здравствуйте"), GREETING_REPLY);
    assert_eq!(LocalAI::get_response("Ну, пока"), FAREWELL_REPLY);
    assert_eq!(LocalAI::get_response("До свидания"), FAREWELL_REPLY);
    assert_eq!(LocalAI::get_response("Нужна ПОМОЩЬ"), HELP_REPLY);
    assert_eq!(LocalAI::get_response("помоги мне"), HELP_REPLY);
    assert_eq!(LocalAI::get_response("Сколько время?"), TIME_REPLY);
    assert_eq!(LocalAI::get_response("Который час"), TIME_REPLY);
    assert_eq!(LocalAI::get_response("What is Rust?"), DEFAULT_REPLY);
    assert_eq!(LocalAI::get_response(""), DEFAULT_REPLY);
}

#[test]
fn local_rules_first_category_wins() {
    assert_eq!(LocalAI::get_response("привет, пока"), GREETING_REPLY);
    assert_eq!(LocalAI::get_response("пока, помоги"), FAREWELL_REPLY);
    assert_eq!(LocalAI::reply_for_lowercase("время помощь"), HELP_REPLY);
}

#[test]
fn blank_text_detection() {
    assert!(is_blank(""));
    assert!(is_blank("   \t\n"));
    assert!(!is_blank("  x "));
}

fn both_remotes() -> BackendSettings {
    BackendSettings { primary_configured: true, secondary_enabled: true }
}

#[test]
fn fallback_reaches_secondary_and_skips_local() {
    let mut agent = ClippyAgent::new(both_remotes());
    let s1 = agent.begin_turn("x");
    assert!(matches!(s1, Step::Invoke(Backend::RemotePrimary)));
    let s2 = agent.handle_outcome("x", Backend::RemotePrimary, Err(BackendError::Transport));
    assert!(matches!(s2, Step::Invoke(Backend::RemoteSecondary)));
    let s3 = agent.handle_outcome("x", Backend::RemoteSecondary, Ok("from secondary".to_string()));
    assert_eq!(reply_text(s3), "from secondary");
    assert_eq!(agent.current_backend(), Backend::RemoteSecondary);
    assert_eq!(agent.get_current_model(), "OpenAI");
    assert_eq!(
        contents(&agent.get_history()),
        vec![(Role::User, "x".to_string()), (Role::Assistant, "from secondary".to_string())]
    );
}

#[test]
fn empty_input_gets_prompt_and_changes_nothing() {
    let mut agent = ClippyAgent::new(both_remotes());
    assert_eq!(reply_text(agent.begin_turn("")), EMPTY_INPUT_PROMPT);
    assert_eq!(reply_text(agent.begin_turn("   ")), EMPTY_INPUT_PROMPT);
    assert!(agent.get_history().is_empty());
    assert_eq!(agent.current_backend(), Backend::LocalRules);
}

#[test]
fn primary_success_is_recorded() {
    let mut agent = ClippyAgent::new(both_remotes());
    assert!(matches!(agent.begin_turn("hi"), Step::Invoke(Backend::RemotePrimary)));
    let s = agent.handle_outcome("hi", Backend::RemotePrimary, Ok("hello".to_string()));
    assert_eq!(reply_text(s), "hello");
    assert_eq!(agent.get_current_model(), "GigaChat");
    assert_eq!(agent.get_history().len(), 2);
}

#[test]
fn no_remotes_answers_locally() {
    let settings = BackendSettings::from_config(&None, true, &None);
    assert!(!settings.primary_configured);
    assert!(!settings.secondary_enabled);
    let mut agent = ClippyAgent::new(settings);
    let r = reply_text(agent.begin_turn("Привет"));
    assert_eq!(r, GREETING_REPLY);
    assert_eq!(agent.get_current_model(), "Local");
    assert_eq!(
        contents(&agent.get_history()),
        vec![(Role::User, "Привет".to_string()), (Role::Assistant, GREETING_REPLY.to_string())]
    );
}

#[test]
fn failing_primary_without_secondary_falls_to_local() {
    let settings = BackendSettings::from_config(&Some("key".to_string()), false, &Some("k2".to_string()));
    assert!(settings.primary_configured);
    assert!(!settings.secondary_enabled);
    let mut agent = ClippyAgent::new(settings);
    assert!(matches!(agent.begin_turn("помоги"), Step::Invoke(Backend::RemotePrimary)));
    let s = agent.handle_outcome("помоги", Backend::RemotePrimary, Err(BackendError::Status(500)));
    assert_eq!(reply_text(s), HELP_REPLY);
    assert_eq!(agent.current_backend(), Backend::LocalRules);
}

#[test]
fn failing_secondary_falls_to_local() {
    let settings = BackendSettings::from_config(&Some(String::new()), true, &Some("k2".to_string()));
    assert!(!settings.primary_configured);
    let mut agent = ClippyAgent::new(settings);
    assert!(matches!(agent.begin_turn("abc"), Step::Invoke(Backend::RemoteSecondary)));
    let s = agent.handle_outcome("abc", Backend::RemoteSecondary, Err(BackendError::Decode));
    assert_eq!(reply_text(s), DEFAULT_REPLY);
}

#[test]
fn agent_history_is_bounded_to_ten() {
    let mut agent = ClippyAgent::new(BackendSettings { primary_configured: false, secondary_enabled: false });
    for i in 0..8 {
        let _ = agent.begin_turn(&format!("q{}", i));
    }
    let h = agent.get_history();
    assert_eq!(h.len(), 10);
    assert_eq!(h[0].content, "q3");
    assert_eq!(h[0].role, Role::User);
}

#[test]
fn request_carries_history_and_new_text() {
    let mut agent = ClippyAgent::new(both_remotes());
    let _ = agent.begin_turn("one");
    let _ = agent.handle_outcome("one", Backend::RemotePrimary, Ok("two".to_string()));
    let req = agent.request_messages("three");
    assert_eq!(
        contents(&req),
        vec![
            (Role::User, "one".to_string()),
            (Role::Assistant, "two".to_string()),
            (Role::User, "three".to_string()),
        ]
    );
    agent.clear_history();
    assert!(agent.get_history().is_empty());
}
