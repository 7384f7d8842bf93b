//! The `recall` tool: a search of the agent's memory notes.

use vstd::prelude::*;

use crate::context::AgentContext;
use crate::json::{items_view, members_view, Json, JsonNumber, JsonView};
use crate::store::{search_answered, search_since_answered, NoteMetadata, NoteStore};
use crate::timestamp::{parse_rfc3339, rfc3339_outcome, Timestamp};
use crate::tools::{Tool, ToolError, ToolOutput};

verus! {

/// A tool that lets the agent search its memory notes.
#[derive(Debug, Clone, Copy)]
pub struct Recall;

/// The text of the `since` parameter's description.
pub open spec fn since_description() -> Seq<char> {
    "Optional RFC3339 timestamp. When set, only returns notes created at or after this time. Example: '2026-06-01T00:00:00Z'"@
}

/// The JSON Schema of the `recall` tool's parameters: a required string
/// `query`, an optional string `since`, and no other member.
pub open spec fn recall_parameters_view() -> JsonView {
    JsonView::Object(
        seq![
            ("type"@, JsonView::Str("object"@)),
            (
                "properties"@,
                JsonView::Object(
                    seq![
                        (
                            "query"@,
                            JsonView::Object(
                                seq![
                                    ("type"@, JsonView::Str("string"@)),
                                    (
                                        "description"@,
                                        JsonView::Str(
                                            "The search query to match against note titles and tags."@,
                                        ),
                                    ),
                                ],
                            ),
                        ),
                        (
                            "since"@,
                            JsonView::Object(
                                seq![
                                    ("type"@, JsonView::Str("string"@)),
                                    ("description"@, JsonView::Str(since_description())),
                                ],
                            ),
                        ),
                    ],
                ),
            ),
            ("required"@, JsonView::Array(seq![JsonView::Str("query"@)])),
            ("additionalProperties"@, JsonView::Bool(false)),
        ],
    )
}

/// What a recall asks of the note store, read from its arguments.
#[derive(Debug)]
pub struct RecallRequest {
    /// The search query.
    pub query: String,
    /// When present, only notes created at this instant or later are wanted.
    pub since: Option<Timestamp>,
}

/// What a recall answers: the query and the notes found for it.
#[derive(Debug)]
pub struct RecallReply {
    pub query: String,
    pub results: Vec<NoteMetadata>,
}

impl RecallReply {
    /// How many notes were found.
    pub fn count(&self) -> (r: usize)
        ensures
            r == self.results@.len(),
    {
        self.results.len()
    }
}

/// How the arguments of a recall are read.
pub enum RecallPlan {
    /// The arguments have no string `query`.
    MissingQuery,
    /// The string `since` is not an RFC 3339 timestamp; the parser's message.
    InvalidSince(Seq<char>),
    /// Search for the query.
    Search(Seq<char>),
    /// Search for the query among the notes created at the instant or later.
    SearchSince(Seq<char>, Timestamp),
}

/// How the arguments `args` of a recall are read: the string member `query`
/// is required; a string member `since`, when present, is read as an
/// RFC 3339 timestamp; a `since` that is absent or not a string is ignored.
pub open spec fn recall_plan(args: JsonView) -> RecallPlan {
    match args.text_member("query"@) {
        None => RecallPlan::MissingQuery,
        Some(query) => match args.text_member("since"@) {
            None => RecallPlan::Search(query),
            Some(text) => match rfc3339_outcome(text) {
                Ok(instant) => RecallPlan::SearchSince(
                    query,
                    Timestamp { unix_nanos: instant.0, offset_seconds: instant.1 },
                ),
                Err(message) => RecallPlan::InvalidSince(message),
            },
        },
    }
}

/// Whether `r` may be the outcome of a recall with arguments `args` asked of
/// `store`. Without a string `query` it fails naming `query`; with a string
/// `since` that is no RFC 3339 timestamp it fails with the parser's message.
/// Otherwise the store is searched for the query (among the notes created
/// at the `since` instant or later, when one is given), and the outcome is
/// the query and the notes the store found, or the store's error.
pub open spec fn recall_result<S: NoteStore>(
    args: JsonView,
    store: &S,
    r: Result<RecallReply, ToolError>,
) -> bool {
    match recall_plan(args) {
        RecallPlan::MissingQuery => r matches Err(ToolError::MissingParameter(key)) && key@ == "query"@,
        RecallPlan::InvalidSince(message) => r matches Err(ToolError::InvalidSince(m)) && m@ == message,
        RecallPlan::Search(query) => match r {
            Ok(reply) => reply.query@ == query && search_answered(store, query, Ok(reply.results)),
            Err(e) => e matches ToolError::Store(inner) && search_answered(store, query, Err(inner)),
        },
        RecallPlan::SearchSince(query, after) => match r {
            Ok(reply) => reply.query@ == query && search_since_answered(
                store,
                query,
                after,
                Ok(reply.results),
            ),
            Err(e) => e matches ToolError::Store(inner) && search_since_answered(
                store,
                query,
                after,
                Err(inner),
            ),
        },
    }
}

/// The text of the member `key` of `input`.
pub fn require_str<'a>(input: &'a Json, key: &str) -> (r: Result<&'a str, ToolError>)
    ensures
        match input@.text_member(key@) {
            Some(text) => r matches Ok(s) && s@ == text,
            None => r matches Err(ToolError::MissingParameter(k)) && k@ == key@,
        },
{
    match input.get(key) {
        Some(value) => match value.as_str() {
            Some(s) => Ok(s),
            None => Err(ToolError::MissingParameter(key.to_string())),
        },
        None => Err(ToolError::MissingParameter(key.to_string())),
    }
}

/// Read the arguments of a recall into what to ask of the note store.
pub fn recall_request(args: &Json) -> (r: Result<RecallRequest, ToolError>)
    ensures
        match recall_plan(args@) {
            RecallPlan::MissingQuery => r matches Err(ToolError::MissingParameter(key)) && key@ == "query"@,
            RecallPlan::InvalidSince(message) => r matches Err(ToolError::InvalidSince(m)) && m@ == message,
            RecallPlan::Search(query) => r matches Ok(req) && req.query@ == query && req.since is None,
            RecallPlan::SearchSince(query, after) => r matches Ok(req) && req.query@ == query && req.since == Some(after),
        },
{
    let query = require_str(args, "query")?;
    let since = match args.get("since") {
        Some(value) => value.as_str(),
        None => None,
    };
    match since {
        Some(text) => match parse_rfc3339(text) {
            Ok(after) => Ok(RecallRequest { query: query.to_string(), since: Some(after) }),
            Err(message) => Err(ToolError::InvalidSince(message)),
        },
        None => Ok(RecallRequest { query: query.to_string(), since: None }),
    }
}

/// The answer to a recall for `query`, given what the note store returned.
pub fn recall_reply(query: &str, found: Result<Vec<NoteMetadata>, crate::store::MemoryError>) -> (r: Result<RecallReply, ToolError>)
    ensures
        match found {
            Ok(hits) => r matches Ok(reply) && reply.query@ == query@ && reply.results == hits,
            Err(e) => r matches Err(ToolError::Store(inner)) && inner == e,
        },
{
    match found {
        Ok(hits) => Ok(RecallReply { query: query.to_string(), results: hits }),
        Err(e) => Err(ToolError::Store(e)),
    }
}

/// Dispatch logic for the `recall` tool: read the arguments, ask `store`
/// for the matching notes (since the timestamp, when one is given), and
/// answer with the query and what the store found.
pub fn dispatch_recall<S: NoteStore>(args: &Json, store: &S) -> (r: Result<RecallReply, ToolError>)
    ensures
        recall_result(args@, store, r),
{
    let request = recall_request(args)?;
    let found = match request.since {
        Some(after) => store.search_since(request.query.as_str(), after),
        None => store.search(request.query.as_str()),
    };
    recall_reply(request.query.as_str(), found)
}

} // verus!

verus! {

/// Whether `r` may be the outcome of calling the `recall` tool with
/// arguments `args`: the notes found for the query read from them, or the
/// error that reading them or searching gives.
pub open spec fn recall_outcome<S: NoteStore>(
    args: JsonView,
    store: &S,
    r: Result<ToolOutput, ToolError>,
) -> bool {
    match r {
        Ok(ToolOutput::Notes(reply)) => recall_result(args, store, Ok(reply)),
        Ok(ToolOutput::Value(_)) => false,
        Err(e) => recall_result(args, store, Err(e)),
    }
}

/// The schema of one string parameter with the given description.
fn string_parameter(description: &str) -> (r: Json)
    ensures
        r@ == JsonView::Object(
            seq![("type"@, JsonView::Str("string"@)), ("description"@, JsonView::Str(description@))],
        ),
{
    let members = vec![
        Json::member("type", Json::text("string")),
        Json::member("description", Json::text(description)),
    ];
    let ghost shown = members@;
    let r = Json::object(members);
    assert(members_view(shown) =~= seq![
        ("type"@, JsonView::Str("string"@)),
        ("description"@, JsonView::Str(description@)),
    ]);
    r
}

impl Tool for Recall {
    fn name(&self) -> (r: &'static str)
        ensures
            r@ == "recall"@,
    {
        "recall"
    }

    fn description(&self) -> (r: &'static str)
        ensures
            r@ == "Search the agent's memory notes. Returns notes matching the query, optionally filtered by creation time."@,
    {
        "Search the agent's memory notes. Returns notes matching the query, optionally filtered by creation time."
    }

    fn parameters(&self) -> (r: Json)
        ensures
            r@ == recall_parameters_view(),
    {
        let query = string_parameter("The search query to match against note titles and tags.");
        let since = string_parameter(
            "Optional RFC3339 timestamp. When set, only returns notes created at or after this time. Example: '2026-06-01T00:00:00Z'",
        );
        let ghost query_view = query@;
        let ghost since_view = since@;
        let property_members = vec![Json::member("query", query), Json::member("since", since)];
        let ghost shown_properties = property_members@;
        let properties = Json::object(property_members);
        assert(members_view(shown_properties) =~= seq![("query"@, query_view), ("since"@, since_view)]);
        let required_items = vec![Json::text("query")];
        let ghost shown_required = required_items@;
        let required = Json::array(required_items);
        assert(crate::json::items_view(shown_required) =~= seq![JsonView::Str("query"@)]);
        let ghost properties_view = properties@;
        let ghost required_view = required@;
        let members = vec![
            Json::member("type", Json::text("object")),
            Json::member("properties", properties),
            Json::member("required", required),
            Json::member("additionalProperties", Json::Bool(false)),
        ];
        let ghost shown = members@;
        let r = Json::object(members);
        assert(members_view(shown) =~= recall_parameters_view()->Object_0);
        r
    }

    fn call<S: NoteStore>(&self, args: &Json, ctx: &AgentContext, store: &S) -> (r: Result<
        ToolOutput,
        ToolError,
    >)
        ensures
            recall_outcome(args@, store, r),
    {
        let reply = dispatch_recall(args, store)?;
        Ok(ToolOutput::Notes(reply))
    }
}

} // verus!

verus! {

/// The answer object of a recall: the query, the number of notes found and
/// the notes, each in the JSON form given for it, in order.
pub open spec fn recall_answer_view(query: Seq<char>, results: Seq<JsonView>) -> JsonView {
    JsonView::Object(
        seq![
            ("query"@, JsonView::Str(query)),
            ("count"@, JsonView::Number(JsonNumber::PosInt(results.len() as u64))),
            ("results"@, JsonView::Array(results)),
        ],
    )
}

/// The answer object of a recall for `query`, from the JSON form of each
/// note found, in order.
pub fn recall_answer(query: &str, results: Vec<Json>) -> (r: Json)
    ensures
        r@ == recall_answer_view(query@, items_view(results@)),
{
    let count = results.len() as u64;
    let ghost shown_results = items_view(results@);
    let results_json = Json::array(results);
    let members = vec![
        Json::member("query", Json::text(query)),
        Json::member("count", Json::unsigned(count)),
        Json::member("results", results_json),
    ];
    let ghost shown = members@;
    let r = Json::object(members);
    assert(members_view(shown) =~= recall_answer_view(query@, shown_results)->Object_0);
    r
}

} // verus!

verus! {

/// What a recall hands to the store and answers, read off its arguments: with
/// a string `query` q and a string `since` that parses to an instant t, the
/// store's `search_since` is asked for q itself and t, and the reply repeats q
/// and holds what the store found; with a string `query` q and no string
/// `since`, the store's `search` is asked for q itself. A store failure is
/// passed on as that very error.
pub proof fn lemma_recall_asks_the_store_for_the_query<S: NoteStore>(
    args: JsonView,
    store: &S,
    r: Result<RecallReply, ToolError>,
)
    requires
        recall_result(args, store, r),
    ensures
        match args.text_member("query"@) {
            None => (r matches Err(ToolError::MissingParameter(k)) && k@ == "query"@),
            Some(q) => match args.text_member("since"@) {
                None => match r {
                    Ok(reply) => reply.query@ == q && search_answered(store, reply.query@, Ok(reply.results)),
                    Err(e) => (e matches ToolError::Store(inner) && search_answered(store, q, Err(inner))),
                },
                Some(text) => match rfc3339_outcome(text) {
                    Ok(instant) => match r {
                        Ok(reply) => reply.query@ == q && search_since_answered(
                            store,
                            reply.query@,
                            Timestamp { unix_nanos: instant.0, offset_seconds: instant.1 },
                            Ok(reply.results),
                        ),
                        Err(e) => (e matches ToolError::Store(inner) && search_since_answered(
                            store,
                            q,
                            Timestamp { unix_nanos: instant.0, offset_seconds: instant.1 },
                            Err(inner),
                        )),
                    },
                    Err(message) => (r matches Err(ToolError::InvalidSince(m)) && m@ == message),
                },
            },
        },
{
}

} // verus!
