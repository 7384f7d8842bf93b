//! The tools the agent can call, their registry, and dispatch by name.

pub mod self_report_tools;

use vstd::prelude::*;

use crate::agenda::{agenda_to_json, agenda_view};
use crate::context::AgentContext;
use crate::goals::{goals_to_json, goals_view};
use crate::json::{first_member_from, members_view, Json, JsonNumber, JsonView};
use crate::memory_tools::{recall_outcome, recall_parameters_view, Recall, RecallReply};
use crate::store::{MemoryError, NoteStore};
use self_report_tools::{self_report_view, SelfReport};

verus! {

/// Why a tool call failed.
#[derive(Debug)]
pub enum ToolError {
    /// A required string parameter is absent or not a string; holds its name.
    MissingParameter(String),
    /// The `since` parameter is not an RFC 3339 timestamp; holds the parser's message.
    InvalidSince(String),
    /// The note store failed.
    Store(MemoryError),
    /// No registered tool has the name asked for; holds that name.
    UnknownTool(String),
}

impl ToolError {
    /// The text that describes the error.
    pub open spec fn message(&self) -> Seq<char> {
        match self {
            ToolError::MissingParameter(k) => "missing required parameter: "@ + k@,
            ToolError::InvalidSince(m) => "invalid since timestamp: "@ + m@,
            ToolError::Store(e) => "store error: "@ + e.message(),
            ToolError::UnknownTool(n) => "unknown tool: "@ + n@,
        }
    }

    /// The text that describes the error.
    pub fn to_string(&self) -> (r: String)
        ensures
            r@ == self.message(),
    {
        match self {
            ToolError::MissingParameter(k) => {
                let mut r = String::from_str("missing required parameter: ");
                r.append(k.as_str());
                r
            },
            ToolError::InvalidSince(m) => {
                let mut r = String::from_str("invalid since timestamp: ");
                r.append(m.as_str());
                r
            },
            ToolError::Store(e) => {
                let mut r = String::from_str("store error: ");
                let inner = e.to_string();
                r.append(inner.as_str());
                r
            },
            ToolError::UnknownTool(n) => {
                let mut r = String::from_str("unknown tool: ");
                r.append(n.as_str());
                r
            },
        }
    }
}

/// What a tool answers: a JSON document, or the notes a recall found.
#[derive(Debug)]
pub enum ToolOutput {
    Value(Json),
    Notes(RecallReply),
}

/// Every tool implements this.
pub trait Tool: Send + Sync {
    /// The machine-readable name used to invoke the tool.
    fn name(&self) -> &'static str;

    /// A human-readable description for the language model.
    fn description(&self) -> &'static str;

    /// JSON Schema for the tool's parameters (an empty object if none).
    fn parameters(&self) -> Json;

    /// Execute the tool with the given arguments and the current agent
    /// context; `store` is where the agent's memory notes are searched.
    fn call<S: NoteStore>(&self, args: &Json, ctx: &AgentContext, store: &S) -> Result<ToolOutput, ToolError>;
}

} // verus!

verus! {

/// The schema of a tool that takes no parameters: an object with no
/// properties and no other member allowed.
pub open spec fn no_parameters_view() -> JsonView {
    JsonView::Object(
        seq![
            ("type"@, JsonView::Str("object"@)),
            ("properties"@, JsonView::Object(Seq::empty())),
            ("additionalProperties"@, JsonView::Bool(false)),
        ],
    )
}

/// The schema of a tool that takes no parameters.
pub fn no_parameters() -> (r: Json)
    ensures
        r@ == no_parameters_view(),
{
    let properties = Json::object(Vec::new());
    assert(members_view(Seq::<(String, Json)>::empty()) =~= Seq::empty());
    let ghost properties_view = properties@;
    let members = vec![
        Json::member("type", Json::text("object")),
        Json::member("properties", properties),
        Json::member("additionalProperties", Json::Bool(false)),
    ];
    let ghost shown = members@;
    let r = Json::object(members);
    assert(members_view(shown) =~= no_parameters_view()->Object_0);
    r
}

/// An empty JSON array.
fn empty_list() -> (r: Json)
    ensures
        r@ == JsonView::Array(Seq::empty()),
{
    let r = Json::array(Vec::new());
    assert(crate::json::items_view(Seq::<Json>::empty()) =~= Seq::empty());
    r
}

/// Lists all items currently on the agent's agenda.
#[derive(Debug, Clone, Copy)]
pub struct ListAgenda;

impl Tool for ListAgenda {
    fn name(&self) -> (r: &'static str)
        ensures
            r@ == "list_agenda"@,
    {
        "list_agenda"
    }

    fn description(&self) -> (r: &'static str)
        ensures
            r@ == "Lists all items currently on the agent's agenda."@,
    {
        "Lists all items currently on the agent's agenda."
    }

    fn parameters(&self) -> (r: Json)
        ensures
            r@ == no_parameters_view(),
    {
        no_parameters()
    }

    fn call<S: NoteStore>(&self, args: &Json, ctx: &AgentContext, store: &S) -> (r: Result<
        ToolOutput,
        ToolError,
    >)
        ensures
            r matches Ok(ToolOutput::Value(j)) && j@ == agenda_view(ctx.agenda@),
    {
        Ok(ToolOutput::Value(agenda_to_json(&ctx.agenda)))
    }
}

/// Lists all goals on the agent's goal stack.
#[derive(Debug, Clone, Copy)]
pub struct ListGoals;

impl Tool for ListGoals {
    fn name(&self) -> (r: &'static str)
        ensures
            r@ == "list_goals"@,
    {
        "list_goals"
    }

    fn description(&self) -> (r: &'static str)
        ensures
            r@ == "Lists all goals on the agent's goal stack."@,
    {
        "Lists all goals on the agent's goal stack."
    }

    fn parameters(&self) -> (r: Json)
        ensures
            r@ == no_parameters_view(),
    {
        no_parameters()
    }

    fn call<S: NoteStore>(&self, args: &Json, ctx: &AgentContext, store: &S) -> (r: Result<
        ToolOutput,
        ToolError,
    >)
        ensures
            r matches Ok(ToolOutput::Value(j)) && j@ == goals_view(ctx.goals@),
    {
        Ok(ToolOutput::Value(goals_to_json(&ctx.goals)))
    }
}

/// Lists the behavioural rules the agent follows. No rule store exists yet,
/// so the list is empty.
#[derive(Debug, Clone, Copy)]
pub struct ListRules;

impl Tool for ListRules {
    fn name(&self) -> (r: &'static str)
        ensures
            r@ == "list_rules"@,
    {
        "list_rules"
    }

    fn description(&self) -> (r: &'static str)
        ensures
            r@ == "Lists the behavioural rules the agent follows."@,
    {
        "Lists the behavioural rules the agent follows."
    }

    fn parameters(&self) -> (r: Json)
        ensures
            r@ == no_parameters_view(),
    {
        no_parameters()
    }

    fn call<S: NoteStore>(&self, args: &Json, ctx: &AgentContext, store: &S) -> (r: Result<
        ToolOutput,
        ToolError,
    >)
        ensures
            r matches Ok(ToolOutput::Value(j)) && j@ == JsonView::Array(Seq::empty()),
    {
        Ok(ToolOutput::Value(empty_list()))
    }
}

/// Lists the workflows available to the agent. No workflow registry exists
/// yet, so the list is empty.
#[derive(Debug, Clone, Copy)]
pub struct ListWorkflows;

impl Tool for ListWorkflows {
    fn name(&self) -> (r: &'static str)
        ensures
            r@ == "list_workflows"@,
    {
        "list_workflows"
    }

    fn description(&self) -> (r: &'static str)
        ensures
            r@ == "Lists the workflows available to the agent."@,
    {
        "Lists the workflows available to the agent."
    }

    fn parameters(&self) -> (r: Json)
        ensures
            r@ == no_parameters_view(),
    {
        no_parameters()
    }

    fn call<S: NoteStore>(&self, args: &Json, ctx: &AgentContext, store: &S) -> (r: Result<
        ToolOutput,
        ToolError,
    >)
        ensures
            r matches Ok(ToolOutput::Value(j)) && j@ == JsonView::Array(Seq::empty()),
    {
        Ok(ToolOutput::Value(empty_list()))
    }
}

} // verus!

verus! {

/// One of the tools the agent has.
#[derive(Debug, Clone, Copy)]
pub enum RegisteredTool {
    SelfReport(SelfReport),
    Recall(Recall),
    ListAgenda(ListAgenda),
    ListGoals(ListGoals),
    ListRules(ListRules),
    ListWorkflows(ListWorkflows),
}

impl RegisteredTool {
    /// The name the tool is invoked by.
    pub open spec fn tool_name(self) -> Seq<char> {
        match self {
            RegisteredTool::SelfReport(_) => "self_report"@,
            RegisteredTool::Recall(_) => "recall"@,
            RegisteredTool::ListAgenda(_) => "list_agenda"@,
            RegisteredTool::ListGoals(_) => "list_goals"@,
            RegisteredTool::ListRules(_) => "list_rules"@,
            RegisteredTool::ListWorkflows(_) => "list_workflows"@,
        }
    }

    /// The tool's description.
    pub open spec fn tool_description(self) -> Seq<char> {
        match self {
            RegisteredTool::SelfReport(_) => "Returns a comprehensive report of the agent's current state: version info, turn count, active goals, agenda items, rumination digest, and config values."@,
            RegisteredTool::Recall(_) => "Search the agent's memory notes. Returns notes matching the query, optionally filtered by creation time."@,
            RegisteredTool::ListAgenda(_) => "Lists all items currently on the agent's agenda."@,
            RegisteredTool::ListGoals(_) => "Lists all goals on the agent's goal stack."@,
            RegisteredTool::ListRules(_) => "Lists the behavioural rules the agent follows."@,
            RegisteredTool::ListWorkflows(_) => "Lists the workflows available to the agent."@,
        }
    }

    /// The JSON Schema of the tool's parameters.
    pub open spec fn tool_parameters(self) -> JsonView {
        match self {
            RegisteredTool::Recall(_) => recall_parameters_view(),
            _ => no_parameters_view(),
        }
    }

    /// Whether `r` may be the outcome of calling the tool with arguments
    /// `args` in context `ctx`.
    pub open spec fn outcome<S: NoteStore>(
        self,
        args: JsonView,
        ctx: AgentContext,
        store: &S,
        r: Result<ToolOutput, ToolError>,
    ) -> bool {
        match self {
            RegisteredTool::SelfReport(_) => r matches Ok(ToolOutput::Value(j)) && j@ == self_report_view(ctx),
            RegisteredTool::Recall(_) => recall_outcome(args, store, r),
            RegisteredTool::ListAgenda(_) => r matches Ok(ToolOutput::Value(j)) && j@ == agenda_view(ctx.agenda@),
            RegisteredTool::ListGoals(_) => r matches Ok(ToolOutput::Value(j)) && j@ == goals_view(ctx.goals@),
            RegisteredTool::ListRules(_) => r matches Ok(ToolOutput::Value(j)) && j@ == JsonView::Array(Seq::empty()),
            RegisteredTool::ListWorkflows(_) => r matches Ok(ToolOutput::Value(j)) && j@ == JsonView::Array(Seq::empty()),
        }
    }
}

impl Tool for RegisteredTool {
    fn name(&self) -> (r: &'static str)
        ensures
            r@ == self.tool_name(),
    {
        match self {
            RegisteredTool::SelfReport(t) => t.name(),
            RegisteredTool::Recall(t) => t.name(),
            RegisteredTool::ListAgenda(t) => t.name(),
            RegisteredTool::ListGoals(t) => t.name(),
            RegisteredTool::ListRules(t) => t.name(),
            RegisteredTool::ListWorkflows(t) => t.name(),
        }
    }

    fn description(&self) -> (r: &'static str)
        ensures
            r@ == self.tool_description(),
    {
        match self {
            RegisteredTool::SelfReport(t) => t.description(),
            RegisteredTool::Recall(t) => t.description(),
            RegisteredTool::ListAgenda(t) => t.description(),
            RegisteredTool::ListGoals(t) => t.description(),
            RegisteredTool::ListRules(t) => t.description(),
            RegisteredTool::ListWorkflows(t) => t.description(),
        }
    }

    fn parameters(&self) -> (r: Json)
        ensures
            r@ == self.tool_parameters(),
    {
        match self {
            RegisteredTool::SelfReport(t) => t.parameters(),
            RegisteredTool::Recall(t) => t.parameters(),
            RegisteredTool::ListAgenda(t) => t.parameters(),
            RegisteredTool::ListGoals(t) => t.parameters(),
            RegisteredTool::ListRules(t) => t.parameters(),
            RegisteredTool::ListWorkflows(t) => t.parameters(),
        }
    }

    fn call<S: NoteStore>(&self, args: &Json, ctx: &AgentContext, store: &S) -> (r: Result<
        ToolOutput,
        ToolError,
    >)
        ensures
            self.outcome(args@, *ctx, store, r),
    {
        match self {
            RegisteredTool::SelfReport(t) => t.call(args, ctx, store),
            RegisteredTool::Recall(t) => t.call(args, ctx, store),
            RegisteredTool::ListAgenda(t) => t.call(args, ctx, store),
            RegisteredTool::ListGoals(t) => t.call(args, ctx, store),
            RegisteredTool::ListRules(t) => t.call(args, ctx, store),
            RegisteredTool::ListWorkflows(t) => t.call(args, ctx, store),
        }
    }
}

/// The registered tools, in the order dispatch looks through them.
pub open spec fn registry() -> Seq<RegisteredTool> {
    seq![
        RegisteredTool::SelfReport(SelfReport),
        RegisteredTool::Recall(Recall),
        RegisteredTool::ListAgenda(ListAgenda),
        RegisteredTool::ListGoals(ListGoals),
        RegisteredTool::ListRules(ListRules),
        RegisteredTool::ListWorkflows(ListWorkflows),
    ]
}

/// The first registered tool named `name`, if any.
pub open spec fn tool_named(name: Seq<char>) -> Option<RegisteredTool> {
    first_named_from(registry(), name, 0)
}

/// The first tool of `tools` at or after position `start` that is named `name`.
pub open spec fn first_named_from(tools: Seq<RegisteredTool>, name: Seq<char>, start: int) -> Option<RegisteredTool>
    decreases tools.len() - start,
{
    if start < 0 || start >= tools.len() {
        None
    } else if tools[start].tool_name() == name {
        Some(tools[start])
    } else {
        first_named_from(tools, name, start + 1)
    }
}

/// Whether `r` may be the outcome of dispatching a call of the tool named
/// `name`: the outcome of the first registered tool with that name, or, when
/// none has it, the failure naming it.
pub open spec fn dispatch_outcome<S: NoteStore>(
    name: Seq<char>,
    args: JsonView,
    ctx: AgentContext,
    store: &S,
    r: Result<ToolOutput, ToolError>,
) -> bool {
    match tool_named(name) {
        Some(tool) => tool.outcome(args, ctx, store, r),
        None => r matches Err(ToolError::UnknownTool(n)) && n@ == name,
    }
}

/// Returns all registered tools.
pub fn all_tools() -> (r: Vec<RegisteredTool>)
    ensures
        r@ == registry(),
{
    let r = vec![
        RegisteredTool::SelfReport(SelfReport),
        RegisteredTool::Recall(Recall),
        RegisteredTool::ListAgenda(ListAgenda),
        RegisteredTool::ListGoals(ListGoals),
        RegisteredTool::ListRules(ListRules),
        RegisteredTool::ListWorkflows(ListWorkflows),
    ];
    assert(r@ =~= registry());
    r
}

/// Look up a tool by name and call it: the first registered tool with that
/// name answers; when none has it, the call fails naming it.
pub fn dispatch_tool<S: NoteStore>(name: &str, args: &Json, ctx: &AgentContext, store: &S) -> (r: Result<
    ToolOutput,
    ToolError,
>)
    ensures
        dispatch_outcome(name@, args@, *ctx, store, r),
{
    let tools = all_tools();
    let mut i: usize = 0;
    while i < tools.len()
        invariant
            tools@ == registry(),
            0 <= i <= tools@.len(),
            tool_named(name@) == first_named_from(registry(), name@, i as int),
        decreases tools@.len() - i,
    {
        if crate::text::same_text(tools[i].name(), name) {
            return tools[i].call(args, ctx, store);
        }
        i = i + 1;
    }
    Err(ToolError::UnknownTool(name.to_string()))
}

} // verus!

verus! {

/// The registered tools have distinct names, each name reaches its own tool,
/// and a name reaches no tool exactly when no registered tool has it.
pub proof fn lemma_tool_names_select_tools()
    ensures
        forall|i: int, j: int|
            0 <= i < j < registry().len() ==> (#[trigger] registry()[i]).tool_name() != (#[trigger] registry()[j]).tool_name(),
        forall|i: int|
            0 <= i < registry().len() ==> tool_named((#[trigger] registry()[i]).tool_name()) == Some(registry()[i]),
        forall|name: Seq<char>|
            #[trigger] tool_named(name) is None <==> (forall|i: int| 0 <= i < registry().len() ==> registry()[i].tool_name() != name),
{
    reveal_with_fuel(first_named_from, 7);
    reveal_strlit("self_report");
    reveal_strlit("recall");
    reveal_strlit("list_agenda");
    reveal_strlit("list_goals");
    reveal_strlit("list_rules");
    reveal_strlit("list_workflows");
    let names = registry().map_values(|t: RegisteredTool| t.tool_name());
    assert(names[0].len() != names[1].len());
    assert(names[0][0] != names[2][0]);
    assert(names[0].len() != names[3].len());
    assert(names[0].len() != names[4].len());
    assert(names[0].len() != names[5].len());
    assert(names[1].len() != names[2].len());
    assert(names[1].len() != names[3].len());
    assert(names[1].len() != names[4].len());
    assert(names[1].len() != names[5].len());
    assert(names[2].len() != names[3].len());
    assert(names[2].len() != names[4].len());
    assert(names[2].len() != names[5].len());
    assert(names[3][5] != names[4][5]);
    assert(names[3].len() != names[5].len());
    assert(names[4].len() != names[5].len());
    assert forall|name: Seq<char>|
        #[trigger] tool_named(name) is None <==> (forall|i: int| 0 <= i < registry().len() ==> registry()[i].tool_name() != name) by {
        if tool_named(name) is None {
            assert forall|i: int| 0 <= i < registry().len() implies registry()[i].tool_name() != name by {
                assert(first_named_from(registry(), name, 0) is None);
                assert(0 <= i < 6);
            }
        }
    }
}

} // verus!

verus! {

/// Dispatching `list_goals` answers with the goals themselves, in order: an
/// array with one object per goal, whose `id`, `description`, `status` and
/// `priority` are that goal's.
pub proof fn lemma_list_goals_answers_the_goals<S: NoteStore>(
    args: JsonView,
    ctx: AgentContext,
    store: &S,
    r: Result<ToolOutput, ToolError>,
)
    requires
        dispatch_outcome("list_goals"@, args, ctx, store, r),
    ensures
        r matches Ok(ToolOutput::Value(j)) && j@ matches JsonView::Array(items) && items.len()
            == ctx.goals@.len() && forall|i: int|
            0 <= i < items.len() ==> {
                &&& (#[trigger] items[i]).text_member("id"@) == Some(ctx.goals@[i].id@)
                &&& items[i].text_member("description"@) == Some(ctx.goals@[i].description@)
                &&& items[i].member("status"@) == Some(ctx.goals@[i].status.json_view())
                &&& items[i].member("priority"@) == Some(
                    JsonView::Number(JsonNumber::PosInt(ctx.goals@[i].priority as u64)),
                )
            },
{
    lemma_tool_names_select_tools();
    assert(registry()[3].tool_name() == "list_goals"@);
    let items = goals_view(ctx.goals@)->Array_0;
    assert forall|i: int| 0 <= i < items.len() implies {
        &&& (#[trigger] items[i]).text_member("id"@) == Some(ctx.goals@[i].id@)
        &&& items[i].text_member("description"@) == Some(ctx.goals@[i].description@)
        &&& items[i].member("status"@) == Some(ctx.goals@[i].status.json_view())
        &&& items[i].member("priority"@) == Some(
            JsonView::Number(JsonNumber::PosInt(ctx.goals@[i].priority as u64)),
        )
    } by {
        let item = ctx.goals@[i];
        assert(items[i] == item.json_view());
        lemma_item_members(
            JsonView::Str(item.id@),
            JsonView::Str(item.description@),
            item.status.json_view(),
            JsonView::Number(JsonNumber::PosInt(item.priority as u64)),
        );
    }
}

/// Dispatching `list_agenda` answers with the agenda items themselves, in
/// order: an array with one object per item, whose `id`, `description`,
/// `status` and `priority` are that item's.
pub proof fn lemma_list_agenda_answers_the_agenda<S: NoteStore>(
    args: JsonView,
    ctx: AgentContext,
    store: &S,
    r: Result<ToolOutput, ToolError>,
)
    requires
        dispatch_outcome("list_agenda"@, args, ctx, store, r),
    ensures
        r matches Ok(ToolOutput::Value(j)) && j@ matches JsonView::Array(items) && items.len()
            == ctx.agenda@.len() && forall|i: int|
            0 <= i < items.len() ==> {
                &&& (#[trigger] items[i]).text_member("id"@) == Some(ctx.agenda@[i].id@)
                &&& items[i].text_member("description"@) == Some(ctx.agenda@[i].description@)
                &&& items[i].member("status"@) == Some(ctx.agenda@[i].status.json_view())
                &&& items[i].member("priority"@) == Some(
                    JsonView::Number(JsonNumber::PosInt(ctx.agenda@[i].priority as u64)),
                )
            },
{
    lemma_tool_names_select_tools();
    assert(registry()[2].tool_name() == "list_agenda"@);
    let items = agenda_view(ctx.agenda@)->Array_0;
    assert forall|i: int| 0 <= i < items.len() implies {
        &&& (#[trigger] items[i]).text_member("id"@) == Some(ctx.agenda@[i].id@)
        &&& items[i].text_member("description"@) == Some(ctx.agenda@[i].description@)
        &&& items[i].member("status"@) == Some(ctx.agenda@[i].status.json_view())
        &&& items[i].member("priority"@) == Some(
            JsonView::Number(JsonNumber::PosInt(ctx.agenda@[i].priority as u64)),
        )
    } by {
        let item = ctx.agenda@[i];
        assert(items[i] == item.json_view());
        lemma_item_members(
            JsonView::Str(item.id@),
            JsonView::Str(item.description@),
            item.status.json_view(),
            JsonView::Number(JsonNumber::PosInt(item.priority as u64)),
        );
    }
}

/// The members of an object with the keys `id`, `description`, `status` and
/// `priority`, in that order, are found under those keys.
proof fn lemma_item_members(a: JsonView, b: JsonView, c: JsonView, d: JsonView)
    ensures
        ({
            let o = JsonView::Object(seq![("id"@, a), ("description"@, b), ("status"@, c), ("priority"@, d)]);
            &&& o.member("id"@) == Some(a)
            &&& o.member("description"@) == Some(b)
            &&& o.member("status"@) == Some(c)
            &&& o.member("priority"@) == Some(d)
        }),
{
    reveal_with_fuel(first_member_from, 5);
    reveal_strlit("id");
    reveal_strlit("description");
    reveal_strlit("status");
    reveal_strlit("priority");
    assert("id"@.len() != "description"@.len());
    assert("id"@.len() != "status"@.len());
    assert("id"@.len() != "priority"@.len());
    assert("description"@.len() != "status"@.len());
    assert("description"@.len() != "priority"@.len());
    assert("status"@.len() != "priority"@.len());
}

} // verus!

verus! {

/// Dispatching `list_rules` or `list_workflows` answers with an empty list,
/// whatever the arguments and the context.
pub proof fn lemma_rules_and_workflows_are_empty<S: NoteStore>(
    args: JsonView,
    ctx: AgentContext,
    store: &S,
    r1: Result<ToolOutput, ToolError>,
    r2: Result<ToolOutput, ToolError>,
)
    requires
        dispatch_outcome("list_rules"@, args, ctx, store, r1),
        dispatch_outcome("list_workflows"@, args, ctx, store, r2),
    ensures
        r1 matches Ok(ToolOutput::Value(j)) && j@ == JsonView::Array(Seq::empty()),
        r2 matches Ok(ToolOutput::Value(j)) && j@ == JsonView::Array(Seq::empty()),
{
    lemma_tool_names_select_tools();
    assert(registry()[4].tool_name() == "list_rules"@);
    assert(registry()[5].tool_name() == "list_workflows"@);
}

/// Only the six tool names are known: a call of any other name fails with
/// the error that names it, and produces no answer.
pub proof fn lemma_unknown_names_fail<S: NoteStore>(
    name: Seq<char>,
    args: JsonView,
    ctx: AgentContext,
    store: &S,
    r: Result<ToolOutput, ToolError>,
)
    requires
        dispatch_outcome(name, args, ctx, store, r),
        name != "self_report"@,
        name != "recall"@,
        name != "list_agenda"@,
        name != "list_goals"@,
        name != "list_rules"@,
        name != "list_workflows"@,
    ensures
        r matches Err(ToolError::UnknownTool(n)) && n@ == name,
{
    lemma_tool_names_select_tools();
    assert(tool_named(name) is None);
}

} // verus!
