//! The `self_report` tool: a snapshot of the agent's state.

use vstd::prelude::*;

use crate::agenda::{agenda_to_json, agenda_view};
use crate::config::Config;
use crate::context::AgentContext;
use crate::goals::{goals_to_json, goals_view};
use crate::json::{first_member_from, members_view, Json, JsonNumber, JsonView};
use crate::store::NoteStore;
use crate::tools::{
    dispatch_outcome, lemma_tool_names_select_tools, no_parameters, no_parameters_view, registry, tool_named, Tool,
    ToolError, ToolOutput,
};

verus! {

/// The version of this library, as its package declares it.
pub const VERSION: &'static str = "0.1.0";

/// Returns a comprehensive JSON snapshot of the agent's current state,
/// including version, turn count, goals, agenda, rumination digest, and
/// configuration.
#[derive(Debug, Clone, Copy)]
pub struct SelfReport;

/// The configuration settings as the report shows them, one member per
/// setting, each under its `agent.` key.
pub open spec fn config_report_view(config: Config) -> JsonView {
    JsonView::Object(
        seq![
            ("agent.provider"@, JsonView::Str(config.provider@)),
            ("agent.chat_model"@, JsonView::Str(config.chat_model@)),
            ("agent.default_model"@, JsonView::Str(config.default_model@)),
            ("agent.idle_interval_secs"@, JsonView::Number(JsonNumber::PosInt(config.idle_interval_secs))),
            ("agent.context_budget"@, JsonView::Number(JsonNumber::PosInt(config.context_budget as u64))),
        ],
    )
}

/// The report on `ctx`: the library version, the build date and commit
/// (`unknown`, as no build stamps them), the turn count, the goals and the
/// agenda in order, the rumination digest or null, and the configuration.
pub open spec fn self_report_view(ctx: AgentContext) -> JsonView {
    JsonView::Object(
        seq![
            ("version"@, JsonView::Str(VERSION@)),
            ("build_date"@, JsonView::Str("unknown"@)),
            ("git_commit"@, JsonView::Str("unknown"@)),
            ("turn_count"@, JsonView::Number(JsonNumber::PosInt(ctx.turn_count))),
            ("goals"@, goals_view(ctx.goals@)),
            ("agenda"@, agenda_view(ctx.agenda@)),
            (
                "rumination"@,
                match ctx.rumination_digest {
                    Some(digest) => JsonView::Str(digest@),
                    None => JsonView::Null,
                },
            ),
            ("config"@, config_report_view(ctx.config)),
        ],
    )
}

/// The configuration settings as the report shows them.
fn config_report(config: &Config) -> (r: Json)
    ensures
        r@ == config_report_view(*config),
{
    let members = vec![
        Json::member("agent.provider", Json::text(config.provider.as_str())),
        Json::member("agent.chat_model", Json::text(config.chat_model.as_str())),
        Json::member("agent.default_model", Json::text(config.default_model.as_str())),
        Json::member("agent.idle_interval_secs", Json::unsigned(config.idle_interval_secs)),
        Json::member("agent.context_budget", Json::unsigned(config.context_budget as u64)),
    ];
    let ghost shown = members@;
    let r = Json::object(members);
    assert(members_view(shown) =~= config_report_view(*config)->Object_0);
    r
}

impl SelfReport {
    /// The report on `ctx`.
    pub fn report(ctx: &AgentContext) -> (r: Json)
        ensures
            r@ == self_report_view(*ctx),
    {
        let goals = goals_to_json(&ctx.goals);
        let agenda = agenda_to_json(&ctx.agenda);
        let rumination = match &ctx.rumination_digest {
            Some(digest) => Json::text(digest.as_str()),
            None => Json::Null,
        };
        let config = config_report(&ctx.config);
        let ghost goals_shown = goals@;
        let ghost agenda_shown = agenda@;
        let ghost rumination_shown = rumination@;
        let ghost config_shown = config@;
        let members = vec![
            Json::member("version", Json::text(VERSION)),
            Json::member("build_date", Json::text("unknown")),
            Json::member("git_commit", Json::text("unknown")),
            Json::member("turn_count", Json::unsigned(ctx.turn_count)),
            Json::member("goals", goals),
            Json::member("agenda", agenda),
            Json::member("rumination", rumination),
            Json::member("config", config),
        ];
        let ghost shown = members@;
        let r = Json::object(members);
        assert(members_view(shown) =~= self_report_view(*ctx)->Object_0);
        r
    }
}

impl Tool for SelfReport {
    fn name(&self) -> (r: &'static str)
        ensures
            r@ == "self_report"@,
    {
        "self_report"
    }

    fn description(&self) -> (r: &'static str)
        ensures
            r@ == "Returns a comprehensive report of the agent's current state: version info, turn count, active goals, agenda items, rumination digest, and config values."@,
    {
        "Returns a comprehensive report of the agent's current state: version info, turn count, active goals, agenda items, rumination digest, and config values."
    }

    fn parameters(&self) -> (r: Json)
        ensures
            r@ == no_parameters_view(),
    {
        no_parameters()
    }

    fn call<S: NoteStore>(&self, args: &Json, ctx: &AgentContext, store: &S) -> (r: Result<
        ToolOutput,
        ToolError,
    >)
        ensures
            r matches Ok(ToolOutput::Value(j)) && j@ == self_report_view(*ctx),
    {
        Ok(ToolOutput::Value(SelfReport::report(ctx)))
    }
}

} // verus!

verus! {

/// The members of an object with the report's eight keys, in order, are
/// found under those keys.
proof fn lemma_report_members(
    version: JsonView,
    build_date: JsonView,
    git_commit: JsonView,
    turn_count: JsonView,
    goals: JsonView,
    agenda: JsonView,
    rumination: JsonView,
    config: JsonView,
)
    ensures
        ({
            let o = JsonView::Object(
                seq![
                    ("version"@, version),
                    ("build_date"@, build_date),
                    ("git_commit"@, git_commit),
                    ("turn_count"@, turn_count),
                    ("goals"@, goals),
                    ("agenda"@, agenda),
                    ("rumination"@, rumination),
                    ("config"@, config),
                ],
            );
            &&& o.member("version"@) == Some(version)
            &&& o.member("turn_count"@) == Some(turn_count)
            &&& o.member("goals"@) == Some(goals)
            &&& o.member("agenda"@) == Some(agenda)
            &&& o.member("rumination"@) == Some(rumination)
            &&& o.member("config"@) == Some(config)
        }),
{
    reveal_with_fuel(first_member_from, 9);
    reveal_strlit("version");
    reveal_strlit("build_date");
    reveal_strlit("git_commit");
    reveal_strlit("turn_count");
    reveal_strlit("goals");
    reveal_strlit("agenda");
    reveal_strlit("rumination");
    reveal_strlit("config");
    let keys = seq!["version"@, "build_date"@, "git_commit"@, "turn_count"@, "goals"@, "agenda"@, "rumination"@, "config"@];
    assert forall|i: int, j: int| 0 <= i < j < 8 implies keys[i] != keys[j] by {
        if keys[i].len() == keys[j].len() {
            assert(keys[i][0] != keys[j][0]);
        }
    }
}

/// The members of an object with the configuration's five keys, in order,
/// are found under those keys.
proof fn lemma_config_members(a: JsonView, b: JsonView, c: JsonView, d: JsonView, e: JsonView)
    ensures
        ({
            let o = JsonView::Object(
                seq![
                    ("agent.provider"@, a),
                    ("agent.chat_model"@, b),
                    ("agent.default_model"@, c),
                    ("agent.idle_interval_secs"@, d),
                    ("agent.context_budget"@, e),
                ],
            );
            &&& o.member("agent.provider"@) == Some(a)
            &&& o.member("agent.chat_model"@) == Some(b)
            &&& o.member("agent.default_model"@) == Some(c)
            &&& o.member("agent.idle_interval_secs"@) == Some(d)
            &&& o.member("agent.context_budget"@) == Some(e)
        }),
{
    reveal_with_fuel(first_member_from, 6);
    reveal_strlit("agent.provider");
    reveal_strlit("agent.chat_model");
    reveal_strlit("agent.default_model");
    reveal_strlit("agent.idle_interval_secs");
    reveal_strlit("agent.context_budget");
    let keys = seq![
        "agent.provider"@,
        "agent.chat_model"@,
        "agent.default_model"@,
        "agent.idle_interval_secs"@,
        "agent.context_budget"@,
    ];
    assert forall|i: int, j: int| 0 <= i < j < 5 implies keys[i] != keys[j] by {
        assert(keys[i].len() != keys[j].len());
    }
}

/// Dispatching `self_report` answers with a report on the context itself:
/// its turn count, its goals and agenda as those tools list them, its
/// rumination digest (null when there is none) and each configuration
/// setting under its `agent.` key.
pub proof fn lemma_self_report_reports_the_context<S: NoteStore>(
    args: JsonView,
    ctx: AgentContext,
    store: &S,
    r: Result<ToolOutput, ToolError>,
)
    requires
        dispatch_outcome("self_report"@, args, ctx, store, r),
    ensures
        r matches Ok(ToolOutput::Value(j)) && {
            &&& j@.member("version"@) == Some(JsonView::Str(VERSION@))
            &&& j@.member("turn_count"@) == Some(JsonView::Number(JsonNumber::PosInt(ctx.turn_count)))
            &&& j@.member("goals"@) == Some(goals_view(ctx.goals@))
            &&& j@.member("agenda"@) == Some(agenda_view(ctx.agenda@))
            &&& j@.member("rumination"@) == Some(
                match ctx.rumination_digest {
                    Some(d) => JsonView::Str(d@),
                    None => JsonView::Null,
                },
            )
            &&& j@.member("config"@) matches Some(c) && {
                &&& c.text_member("agent.provider"@) == Some(ctx.config.provider@)
                &&& c.text_member("agent.chat_model"@) == Some(ctx.config.chat_model@)
                &&& c.text_member("agent.default_model"@) == Some(ctx.config.default_model@)
                &&& c.member("agent.idle_interval_secs"@) == Some(
                    JsonView::Number(JsonNumber::PosInt(ctx.config.idle_interval_secs)),
                )
                &&& c.member("agent.context_budget"@) == Some(
                    JsonView::Number(JsonNumber::PosInt(ctx.config.context_budget as u64)),
                )
            }
        },
{
    lemma_tool_names_select_tools();
    assert(registry()[0].tool_name() == "self_report"@);
    assert(tool_named("self_report"@) == Some(registry()[0]));
    let rumination = match ctx.rumination_digest {
        Some(d) => JsonView::Str(d@),
        None => JsonView::Null,
    };
    lemma_report_members(
        JsonView::Str(VERSION@),
        JsonView::Str("unknown"@),
        JsonView::Str("unknown"@),
        JsonView::Number(JsonNumber::PosInt(ctx.turn_count)),
        goals_view(ctx.goals@),
        agenda_view(ctx.agenda@),
        rumination,
        config_report_view(ctx.config),
    );
    lemma_config_members(
        JsonView::Str(ctx.config.provider@),
        JsonView::Str(ctx.config.chat_model@),
        JsonView::Str(ctx.config.default_model@),
        JsonView::Number(JsonNumber::PosInt(ctx.config.idle_interval_secs)),
        JsonView::Number(JsonNumber::PosInt(ctx.config.context_budget as u64)),
    );
    assert(r matches Ok(ToolOutput::Value(j)) && j@ == self_report_view(ctx));
    let o = JsonView::Object(
        seq![
            ("version"@, JsonView::Str(VERSION@)),
            ("build_date"@, JsonView::Str("unknown"@)),
            ("git_commit"@, JsonView::Str("unknown"@)),
            ("turn_count"@, JsonView::Number(JsonNumber::PosInt(ctx.turn_count))),
            ("goals"@, goals_view(ctx.goals@)),
            ("agenda"@, agenda_view(ctx.agenda@)),
            ("rumination"@, rumination),
            ("config"@, config_report_view(ctx.config)),
        ],
    );
    assert(self_report_view(ctx)->Object_0 =~= o->Object_0);
    assert(self_report_view(ctx).member("config"@) == Some(config_report_view(ctx.config)));
}

} // verus!
