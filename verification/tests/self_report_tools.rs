use maeve::agenda::{AgendaItem, AgendaStatus};
use maeve::config::Config;
use maeve::context::AgentContext;
use maeve::goals::{Goal, GoalStatus};
use maeve::json::{Json, JsonNumber};
use maeve::store::{MemoryError, NoteMetadata, NoteStore};
use maeve::tools::self_report_tools::SelfReport;
use maeve::tools::{Tool, ToolOutput};

/// A store that holds no notes.
struct NoNotes;

impl NoteStore for NoNotes {
    fn search(&self, _query: &str) -> Result<Vec<NoteMetadata>, MemoryError> {
        Ok(vec![])
    }
}

fn empty_args() -> Json {
    Json::Object(vec![])
}

fn text(s: &str) -> Json {
    Json::Str(s.to_string())
}

fn uint(n: u64) -> Json {
    Json::Number(JsonNumber::PosInt(n))
}

fn object(members: Vec<(&str, Json)>) -> Json {
    Json::Object(members.into_iter().map(|(k, v)| (k.to_string(), v)).collect())
}

fn value(output: ToolOutput) -> Json {
    match output {
        ToolOutput::Value(j) => j,
        ToolOutput::Notes(_) => panic!("expected a JSON value"),
    }
}

#[test]
fn self_report_tools_test_self_report_basic() {
    let ctx = AgentContext::new(Config::default());
    let result = value(SelfReport.call(&empty_args(), &ctx, &NoNotes).unwrap());

    assert_eq!(result.get("version"), Some(&text("0.1.0")));
    assert_eq!(result.get("turn_count"), Some(&uint(0)));
    assert_eq!(result.get("goals"), Some(&Json::Array(vec![])));
    assert_eq!(result.get("agenda"), Some(&Json::Array(vec![])));
    assert_eq!(result.get("rumination"), Some(&Json::Null));
}

#[test]
fn self_report_tools_test_self_report_with_state() {
    let mut ctx = AgentContext::new(Config::default());
    ctx.turn_count = 42;
    ctx.goals = vec![Goal {
        id: "g1".into(),
        description: "Test goal".into(),
        status: GoalStatus::Active,
        priority: 1,
    }];
    ctx.agenda = vec![AgendaItem {
        id: "a1".into(),
        description: "Test agenda item".into(),
        status: AgendaStatus::Pending,
        priority: 1,
    }];
    ctx.rumination_digest = Some("Thinking about things...".into());

    let result = value(SelfReport.call(&empty_args(), &ctx, &NoNotes).unwrap());

    assert_eq!(result.get("turn_count"), Some(&uint(42)));
    assert_eq!(
        result.get("goals"),
        Some(&Json::Array(vec![object(vec![
            ("id", text("g1")),
            ("description", text("Test goal")),
            ("status", text("Active")),
            ("priority", uint(1)),
        ])]))
    );
    assert_eq!(
        result.get("agenda"),
        Some(&Json::Array(vec![object(vec![
            ("id", text("a1")),
            ("description", text("Test agenda item")),
            ("status", text("Pending")),
            ("priority", uint(1)),
        ])]))
    );
    assert_eq!(result.get("rumination"), Some(&text("Thinking about things...")));
}

#[test]
fn self_report_tools_test_self_report_config() {
    let config = Config {
        provider: "anthropic".into(),
        chat_model: "c3-opus".into(),
        default_model: "c3-sonnet".into(),
        idle_interval_secs: 60,
        context_budget: 200_000,
    };
    let ctx = AgentContext::new(config);
    let result = value(SelfReport.call(&empty_args(), &ctx, &NoNotes).unwrap());
    let config_obj = result.get("config").unwrap();

    assert_eq!(config_obj.get("agent.provider"), Some(&text("anthropic")));
    assert_eq!(config_obj.get("agent.chat_model"), Some(&text("c3-opus")));
    assert_eq!(config_obj.get("agent.default_model"), Some(&text("c3-sonnet")));
    assert_eq!(config_obj.get("agent.idle_interval_secs"), Some(&uint(60)));
    assert_eq!(config_obj.get("agent.context_budget"), Some(&uint(200_000)));
}


