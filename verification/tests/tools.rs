use maeve::agenda::{AgendaItem, AgendaStatus};
use maeve::config::Config;
use maeve::context::AgentContext;
use maeve::goals::{Goal, GoalStatus};
use maeve::json::{Json, JsonNumber};
use maeve::store::{MemoryError, NoteMetadata, NoteStore};
use maeve::tools::self_report_tools::SelfReport;
use maeve::tools::{all_tools, dispatch_tool, Tool, ToolError, ToolOutput};

/// A store that holds no notes.
struct NoNotes;

impl NoteStore for NoNotes {
    fn search(&self, _query: &str) -> Result<Vec<NoteMetadata>, MemoryError> {
        Ok(vec![])
    }
}

fn empty_args() -> Json {
    Json::Object(vec![])
}

fn text(s: &str) -> Json {
    Json::Str(s.to_string())
}

fn uint(n: u64) -> Json {
    Json::Number(JsonNumber::PosInt(n))
}

fn object(members: Vec<(&str, Json)>) -> Json {
    Json::Object(members.into_iter().map(|(k, v)| (k.to_string(), v)).collect())
}

fn value(output: ToolOutput) -> Json {
    match output {
        ToolOutput::Value(j) => j,
        ToolOutput::Notes(_) => panic!("expected a JSON value"),
    }
}

#[test]
fn mod_test_self_report_basic() {
    let ctx = AgentContext::new(Config::default());
    let result = value(SelfReport.call(&empty_args(), &ctx, &NoNotes).unwrap());

    assert_eq!(result.get("version"), Some(&text("0.1.0")));
    assert_eq!(result.get("turn_count"), Some(&uint(0)));
    assert_eq!(result.get("goals"), Some(&Json::Array(vec![])));
    assert_eq!(result.get("agenda"), Some(&Json::Array(vec![])));
    assert_eq!(result.get("rumination"), Some(&Json::Null));
}

#[test]
fn mod_test_self_report_with_state() {
    let mut ctx = AgentContext::new(Config::default());
    ctx.turn_count = 42;
    ctx.goals = vec![Goal {
        id: "g1".into(),
        description: "Test goal".into(),
        status: GoalStatus::Active,
        priority: 1,
    }];
    ctx.agenda = vec![AgendaItem {
        id: "a1".into(),
        description: "Test agenda item".into(),
        status: AgendaStatus::Pending,
        priority: 1,
    }];
    ctx.rumination_digest = Some("Thinking about things...".into());

    let result = value(SelfReport.call(&empty_args(), &ctx, &NoNotes).unwrap());

    assert_eq!(result.get("turn_count"), Some(&uint(42)));
    assert_eq!(
        result.get("goals"),
        Some(&Json::Array(vec![object(vec![
            ("id", text("g1")),
            ("description", text("Test goal")),
            ("status", text("Active")),
            ("priority", uint(1)),
        ])]))
    );
    assert_eq!(
        result.get("agenda"),
        Some(&Json::Array(vec![object(vec![
            ("id", text("a1")),
            ("description", text("Test agenda item")),
            ("status", text("Pending")),
            ("priority", uint(1)),
        ])]))
    );
    assert_eq!(result.get("rumination"), Some(&text("Thinking about things...")));
}

#[test]
fn mod_test_self_report_config() {
    let config = Config {
        provider: "anthropic".into(),
        chat_model: "c3-opus".into(),
        default_model: "c3-sonnet".into(),
        idle_interval_secs: 60,
        context_budget: 200_000,
    };
    let ctx = AgentContext::new(config);
    let result = value(SelfReport.call(&empty_args(), &ctx, &NoNotes).unwrap());
    let config_obj = result.get("config").unwrap();

    assert_eq!(config_obj.get("agent.provider"), Some(&text("anthropic")));
    assert_eq!(config_obj.get("agent.chat_model"), Some(&text("c3-opus")));
    assert_eq!(config_obj.get("agent.default_model"), Some(&text("c3-sonnet")));
    assert_eq!(config_obj.get("agent.idle_interval_secs"), Some(&uint(60)));
    assert_eq!(config_obj.get("agent.context_budget"), Some(&uint(200_000)));
}

#[test]
fn test_dispatch_self_report() {
    let ctx = AgentContext::new(Config::default());
    let result = value(dispatch_tool("self_report", &empty_args(), &ctx, &NoNotes).unwrap());
    assert!(result.get("version").is_some());
}

#[test]
fn test_other_tools_still_work() {
    let ctx = AgentContext::new(Config::default());
    let result = value(dispatch_tool("list_agenda", &empty_args(), &ctx, &NoNotes).unwrap());
    assert_eq!(result, Json::Array(vec![]));

    let result = value(dispatch_tool("list_goals", &empty_args(), &ctx, &NoNotes).unwrap());
    assert_eq!(result, Json::Array(vec![]));
}

#[test]
fn test_unknown_tool() {
    let ctx = AgentContext::new(Config::default());
    let result = dispatch_tool("nonexistent", &empty_args(), &ctx, &NoNotes);
    assert!(result.is_err());
}

#[test]
fn unknown_tool_error_names_the_tool() {
    let ctx = AgentContext::new(Config::default());
    match dispatch_tool("nonexistent", &empty_args(), &ctx, &NoNotes) {
        Err(e) => {
            assert!(matches!(e, ToolError::UnknownTool(ref n) if n == "nonexistent"));
            assert_eq!(e.to_string(), "unknown tool: nonexistent");
        }
        Ok(_) => panic!("expected an error"),
    }
}

#[test]
fn dispatch_reaches_every_registered_tool_by_name() {
    let ctx = AgentContext::new(Config::default());
    let names: Vec<&str> = all_tools().iter().map(|t| t.name()).collect();
    assert_eq!(names, vec!["self_report", "recall", "list_agenda", "list_goals", "list_rules", "list_workflows"]);
    for name in ["list_rules", "list_workflows"] {
        let result = value(dispatch_tool(name, &empty_args(), &ctx, &NoNotes).unwrap());
        assert_eq!(result, Json::Array(vec![]));
    }
    let args = object(vec![("query", text("anything"))]);
    match dispatch_tool("recall", &args, &ctx, &NoNotes).unwrap() {
        ToolOutput::Notes(reply) => {
            assert_eq!(reply.query, "anything");
            assert_eq!(reply.count(), 0);
        }
        ToolOutput::Value(_) => panic!("expected notes"),
    }
}

#[test]
fn dispatch_recall_without_query_fails() {
    let ctx = AgentContext::new(Config::default());
    match dispatch_tool("recall", &empty_args(), &ctx, &NoNotes) {
        Err(e) => assert_eq!(e.to_string(), "missing required parameter: query"),
        Ok(_) => panic!("expected an error"),
    }
}

#[test]
fn list_agenda_lists_items_in_order() {
    let mut ctx = AgentContext::new(Config::default());
    ctx.agenda = vec![
        AgendaItem { id: "a".into(), description: "first".into(), status: AgendaStatus::InProgress, priority: 3 },
        AgendaItem { id: "b".into(), description: "second".into(), status: AgendaStatus::Cancelled, priority: 0 },
    ];
    let result = value(dispatch_tool("list_agenda", &empty_args(), &ctx, &NoNotes).unwrap());
    assert_eq!(
        result,
        Json::Array(vec![
            object(vec![("id", text("a")), ("description", text("first")), ("status", text("InProgress")), ("priority", uint(3))]),
            object(vec![("id", text("b")), ("description", text("second")), ("status", text("Cancelled")), ("priority", uint(0))]),
        ])
    );
}

#[test]
fn tools_without_parameters_publish_an_empty_schema() {
    let expected = object(vec![
        ("type", text("object")),
        ("properties", Json::Object(vec![])),
        ("additionalProperties", Json::Bool(false)),
    ]);
    for tool in all_tools() {
        if tool.name() != "recall" {
            assert_eq!(tool.parameters(), expected);
        }
    }
}

#[test]
fn tool_descriptions() {
    let descriptions: Vec<&str> = all_tools().iter().map(|t| t.description()).collect();
    assert_eq!(descriptions[2], "Lists all items currently on the agent's agenda.");
    assert_eq!(descriptions[1], "Search the agent's memory notes. Returns notes matching the query, optionally filtered by creation time.");
}
