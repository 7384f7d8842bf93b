use maeve::agenda::AgendaStatus;
use maeve::config::Config;
use maeve::context::AgentContext;
use maeve::goals::GoalStatus;
use maeve::json::{Json, JsonNumber};
use maeve::text::{chars_of, contains_text, same_text};

#[test]
fn statuses_read_as_snake_case_words() {
    assert_eq!(AgendaStatus::Pending.to_string(), "pending");
    assert_eq!(AgendaStatus::InProgress.to_string(), "in_progress");
    assert_eq!(AgendaStatus::Completed.to_string(), "completed");
    assert_eq!(AgendaStatus::Cancelled.to_string(), "cancelled");
    assert_eq!(GoalStatus::Active.to_string(), "active");
    assert_eq!(GoalStatus::Completed.to_string(), "completed");
    assert_eq!(GoalStatus::Cancelled.to_string(), "cancelled");
    assert_eq!(GoalStatus::Blocked.to_string(), "blocked");
}

#[test]
fn statuses_in_json_use_variant_names() {
    assert_eq!(AgendaStatus::InProgress.to_json(), Json::Str("InProgress".into()));
    assert_eq!(GoalStatus::Blocked.to_json(), Json::Str("Blocked".into()));
}

#[test]
fn default_config() {
    let c = Config::default();
    assert_eq!(c.provider, "openai");
    assert_eq!(c.chat_model, "gpt-4");
    assert_eq!(c.default_model, "gpt-4");
    assert_eq!(c.idle_interval_secs, 30);
    assert_eq!(c.context_budget, 128_000);
}

#[test]
fn new_context_starts_empty() {
    let ctx = AgentContext::new(Config::default());
    assert_eq!(ctx.turn_count, 0);
    assert!(ctx.goals.is_empty());
    assert!(ctx.agenda.is_empty());
    assert!(ctx.rumination_digest.is_none());
    assert_eq!(ctx.config.provider, "openai");
}

#[test]
fn json_get_takes_the_first_member_with_the_key() {
    let obj = Json::Object(vec![
        ("a".to_string(), Json::Number(JsonNumber::PosInt(1))),
        ("b".to_string(), Json::Bool(true)),
        ("a".to_string(), Json::Null),
    ]);
    assert_eq!(obj.get("a"), Some(&Json::Number(JsonNumber::PosInt(1))));
    assert_eq!(obj.get("b"), Some(&Json::Bool(true)));
    assert_eq!(obj.get("c"), None);
    assert_eq!(Json::Array(vec![]).get("a"), None);
    assert_eq!(Json::Str("x".into()).as_str(), Some("x"));
    assert_eq!(Json::Null.as_str(), None);
}

#[test]
fn text_helpers() {
    assert_eq!(chars_of("héllo"), vec!['h', 'é', 'l', 'l', 'o']);
    assert!(contains_text("hello world", "o w"));
    assert!(contains_text("abc", ""));
    assert!(contains_text("abc", "abc"));
    assert!(!contains_text("abc", "abcd"));
    assert!(!contains_text("aab", "abb"));
    assert!(same_text("déjà", "déjà"));
    assert!(!same_text("a", "A"));
}
