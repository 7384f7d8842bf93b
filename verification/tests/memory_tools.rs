use std::sync::atomic::{AtomicUsize, Ordering};

use maeve::json::{Json, JsonNumber};
use maeve::memory_tools::{dispatch_recall, recall_reply, recall_request, require_str, Recall};
use maeve::store::{MemoryError, NoteMetadata, NoteStore};
use maeve::timestamp::Timestamp;
use maeve::tools::{Tool, ToolError};

const JAN_15_2025: i128 = 1736899200000000000;
const JUN_15_2025: i128 = 1749945600000000000;
const JUN_01_2025: i128 = 1748736000000000000;

fn utc(unix_nanos: i128) -> Timestamp {
    Timestamp { unix_nanos, offset_seconds: 0 }
}

fn object(members: Vec<(&str, Json)>) -> Json {
    Json::Object(members.into_iter().map(|(k, v)| (k.to_string(), v)).collect())
}

fn text(s: &str) -> Json {
    Json::Str(s.to_string())
}

/// A test store that returns predictable results without touching disk.
struct TestNoteStore {
    call_count: AtomicUsize,
}

impl TestNoteStore {
    fn new() -> Self {
        Self { call_count: AtomicUsize::new(0) }
    }
}

impl NoteStore for TestNoteStore {
    fn search(&self, query: &str) -> Result<Vec<NoteMetadata>, MemoryError> {
        self.call_count.fetch_add(1, Ordering::SeqCst);
        Ok(vec![NoteMetadata {
            id: "test-1".into(),
            title: query.to_string(),
            created: utc(JAN_15_2025),
            tags: vec![],
            snippet: "A test note".into(),
            salience_bits: 0x3ff0000000000000,
        }])
    }

    fn search_since(&self, query: &str, created_after: Timestamp) -> Result<Vec<NoteMetadata>, MemoryError> {
        self.call_count.fetch_add(1, Ordering::SeqCst);
        let meta = NoteMetadata {
            id: "test-1".into(),
            title: query.to_string(),
            created: utc(JUN_15_2025),
            tags: vec![],
            snippet: "A filtered test note".into(),
            salience_bits: 0x3ff0000000000000,
        };
        if meta.created.unix_nanos >= created_after.unix_nanos {
            Ok(vec![meta])
        } else {
            Ok(vec![])
        }
    }
}

/// A store whose every search fails.
struct FailingStore;

impl NoteStore for FailingStore {
    fn search(&self, _query: &str) -> Result<Vec<NoteMetadata>, MemoryError> {
        Err(MemoryError::Io("disk unplugged".into()))
    }
}

#[test]
fn test_recall_schema_has_since() {
    let recall = Recall;
    let params = recall.parameters();
    let props = params.get("properties").unwrap();
    assert!(props.get("since").is_some(), "schema should include 'since'");
    let since = props.get("since").unwrap();
    assert_eq!(since.get("type").unwrap().as_str(), Some("string"));
    assert_eq!(
        since.get("description").unwrap().as_str(),
        Some("Optional RFC3339 timestamp. When set, only returns notes created at or after this time. Example: '2026-06-01T00:00:00Z'")
    );
}

#[test]
fn test_dispatch_recall_without_since() {
    let store = TestNoteStore::new();
    let reply = dispatch_recall(&object(vec![("query", text("hello"))]), &store).unwrap();
    assert_eq!(reply.query, "hello");
    assert_eq!(reply.count(), 1);
    assert_eq!(reply.results[0].title, "hello");
    assert_eq!(store.call_count.load(Ordering::SeqCst), 1);
}

#[test]
fn test_dispatch_recall_with_since() {
    let store = TestNoteStore::new();
    // A since time before the test note's creation (2025-06-15).
    let args = object(vec![("query", text("test")), ("since", text("2025-06-01T00:00:00Z"))]);
    let reply = dispatch_recall(&args, &store).unwrap();
    assert_eq!(reply.count(), 1);
    assert_eq!(reply.results[0].snippet, "A filtered test note");
}

#[test]
fn test_dispatch_recall_with_since_excludes_older() {
    let store = TestNoteStore::new();
    // A since time after the note's creation (2025-06-15): no results.
    let args = object(vec![("query", text("test")), ("since", text("2025-07-01T00:00:00Z"))]);
    let reply = dispatch_recall(&args, &store).unwrap();
    assert_eq!(reply.count(), 0);
}

#[test]
fn test_dispatch_recall_invalid_since() {
    let store = TestNoteStore::new();
    let args = object(vec![("query", text("test")), ("since", text("not-a-timestamp"))]);
    let result = dispatch_recall(&args, &store);
    assert!(result.is_err());
    assert!(
        result.unwrap_err().to_string().contains("invalid since timestamp"),
        "expected error about invalid timestamp"
    );
    assert_eq!(store.call_count.load(Ordering::SeqCst), 0);
}

#[test]
fn test_require_str_missing() {
    let input = object(vec![("foo", text("bar"))]);
    let result = require_str(&input, "query");
    assert!(result.is_err());
    assert!(result.unwrap_err().to_string().contains("missing required parameter"));
}

#[test]
fn test_require_str_ok() {
    let input = object(vec![("query", text("hello"))]);
    let result = require_str(&input, "query");
    assert_eq!(result.unwrap(), "hello");
}

#[test]
fn require_str_refuses_a_value_that_is_not_a_string() {
    let input = object(vec![("query", Json::Number(JsonNumber::PosInt(7)))]);
    match require_str(&input, "query") {
        Err(ToolError::MissingParameter(key)) => assert_eq!(key, "query"),
        other => panic!("unexpected {:?}", other),
    }
    let not_object = text("query");
    assert!(require_str(&not_object, "query").is_err());
}

#[test]
fn recall_request_reads_the_since_instant() {
    let args = object(vec![("query", text("q")), ("since", text("2025-06-01T00:00:00Z"))]);
    let request = recall_request(&args).unwrap();
    assert_eq!(request.query, "q");
    assert_eq!(request.since, Some(utc(JUN_01_2025)));

    let offset = object(vec![("query", text("q")), ("since", text("2025-06-01T02:00:00+02:00"))]);
    let request = recall_request(&offset).unwrap();
    assert_eq!(request.since, Some(Timestamp { unix_nanos: JUN_01_2025, offset_seconds: 7200 }));
}

#[test]
fn recall_request_ignores_a_since_that_is_not_a_string() {
    let args = object(vec![("query", text("q")), ("since", Json::Null)]);
    let request = recall_request(&args).unwrap();
    assert_eq!(request.since, None);
}

#[test]
fn recall_request_missing_query_is_reported_first() {
    let args = object(vec![("since", text("not-a-timestamp"))]);
    match recall_request(&args) {
        Err(e) => assert_eq!(e.to_string(), "missing required parameter: query"),
        Ok(_) => panic!("expected an error"),
    }
}

#[test]
fn dispatch_recall_reports_store_errors() {
    let result = dispatch_recall(&object(vec![("query", text("x"))]), &FailingStore);
    match result {
        Err(e) => assert_eq!(e.to_string(), "store error: I/O error: disk unplugged"),
        Ok(_) => panic!("expected an error"),
    }
}

#[test]
fn dispatch_recall_with_since_on_a_store_without_dates_finds_nothing() {
    let args = object(vec![("query", text("x")), ("since", text("2025-06-01T00:00:00Z"))]);
    let reply = dispatch_recall(&args, &FailingStore).unwrap();
    assert_eq!(reply.count(), 0);
    assert_eq!(reply.query, "x");
}

#[test]
fn recall_reply_counts_what_was_found() {
    let reply = recall_reply("q", Ok(vec![])).unwrap();
    assert_eq!(reply.count(), 0);
    assert_eq!(reply.query, "q");
    match recall_reply("q", Err(MemoryError::NotFound)) {
        Err(ToolError::Store(MemoryError::NotFound)) => {}
        other => panic!("unexpected {:?}", other),
    }
}

#[test]
fn recall_answer_holds_query_count_and_results() {
    let answer = maeve::memory_tools::recall_answer("hello", vec![text("first"), text("second")]);
    assert_eq!(
        answer,
        object(vec![
            ("query", text("hello")),
            ("count", Json::Number(JsonNumber::PosInt(2))),
            ("results", Json::Array(vec![text("first"), text("second")])),
        ])
    );
    let empty = maeve::memory_tools::recall_answer("q", vec![]);
    assert_eq!(empty.get("count"), Some(&Json::Number(JsonNumber::PosInt(0))));
    assert_eq!(empty.get("results"), Some(&Json::Array(vec![])));
}
