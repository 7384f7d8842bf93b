//! Memory notes, the stores that hold them, and the rule by which a search
//! selects them.

use vstd::prelude::*;

use crate::text::{
    ascii_lower_char, ascii_lowercase, ascii_upper_char, ascii_uppercase, chars_of, contains_text,
    is_ascii_text, lowercase, occurs_in, to_lowercase,
};
use crate::timestamp::Timestamp;

verus! {

/// Errors that a note store reports.
#[derive(Debug)]
pub enum MemoryError {
    /// The store failed, with a message.
    Store(String),
    /// The note asked for does not exist.
    NotFound,
    /// Reading or writing failed, with the system's message.
    Io(String),
    /// A note could not be encoded or decoded, with the decoder's message.
    Serialization(String),
}

impl MemoryError {
    /// The text that describes the error.
    pub open spec fn message(&self) -> Seq<char> {
        match self {
            MemoryError::Store(m) => "store error: "@ + m@,
            MemoryError::NotFound => "note not found"@,
            MemoryError::Io(m) => "I/O error: "@ + m@,
            MemoryError::Serialization(m) => "serialization error: "@ + m@,
        }
    }

    /// The text that describes the error.
    pub fn to_string(&self) -> (r: String)
        ensures
            r@ == self.message(),
    {
        match self {
            MemoryError::Store(m) => {
                let mut r = String::from_str("store error: ");
                r.append(m.as_str());
                r
            },
            MemoryError::NotFound => String::from_str("note not found"),
            MemoryError::Io(m) => {
                let mut r = String::from_str("I/O error: ");
                r.append(m.as_str());
                r
            },
            MemoryError::Serialization(m) => {
                let mut r = String::from_str("serialization error: ");
                r.append(m.as_str());
                r
            },
        }
    }
}

/// Metadata about a stored note. The salience is kept as the bit pattern of
/// its IEEE-754 double-precision value.
#[derive(Debug, Clone)]
pub struct NoteMetadata {
    pub id: String,
    pub title: String,
    pub created: Timestamp,
    pub tags: Vec<String>,
    pub snippet: String,
    pub salience_bits: u64,
}

impl NoteMetadata {
    /// Whether one of the note's tags reads, in lowercase, as `query_lower`.
    pub open spec fn has_tag_lowered(self, query_lower: Seq<char>) -> bool {
        exists|i: int| 0 <= i < self.tags@.len() && lowercase(#[trigger] self.tags@[i]@) == query_lower
    }

    /// Whether the note answers `query`: the lowercase query occurs in the
    /// lowercase title, or equals one of the lowercase tags.
    pub open spec fn answers(self, query: Seq<char>) -> bool {
        occurs_in(lowercase(query), lowercase(self.title@)) || self.has_tag_lowered(lowercase(query))
    }

    /// Whether the note answers `query` and was created at `after` or later.
    pub open spec fn answers_since(self, query: Seq<char>, after: Timestamp) -> bool {
        self.answers(query) && self.created.spec_at_or_after(after)
    }
}

/// The notes of `notes` that answer `query`, in their order.
pub open spec fn notes_matching(notes: Seq<NoteMetadata>, query: Seq<char>) -> Seq<NoteMetadata> {
    notes.filter(|n: NoteMetadata| n.answers(query))
}

/// The notes of `notes` that answer `query` and were created at `after` or
/// later, in their order.
pub open spec fn notes_matching_since(
    notes: Seq<NoteMetadata>,
    query: Seq<char>,
    after: Timestamp,
) -> Seq<NoteMetadata> {
    notes.filter(|n: NoteMetadata| n.answers_since(query, after))
}

/// A persistent store for memory notes.
pub trait NoteStore: Send + Sync {
    /// Search notes by query string, matched against note titles and tags.
    fn search(&self, query: &str) -> Result<Vec<NoteMetadata>, MemoryError>;

    /// Search notes created at or after a given timestamp. A store that does
    /// not keep creation times finds nothing.
    fn search_since(&self, query: &str, created_after: Timestamp) -> (r: Result<
        Vec<NoteMetadata>,
        MemoryError,
    >)
        default_ensures
            r matches Ok(v) && v@.len() == 0,
    {
        Ok(Vec::new())
    }
}

/// Whether `found` is what `store` may answer to a search for `query`: the
/// outcome of some call of its `search` with a text that reads as `query`.
pub open spec fn search_answered<S: NoteStore>(
    store: &S,
    query: Seq<char>,
    found: Result<Vec<NoteMetadata>, MemoryError>,
) -> bool {
    exists|text: &str| text@ == query && #[trigger] call_ensures(S::search, (store, text), found)
}

/// Whether `found` is what `store` may answer to a search for `query` among
/// the notes created at `after` or later: the outcome of some call of its
/// `search_since` with a text that reads as `query` and with `after`.
pub open spec fn search_since_answered<S: NoteStore>(
    store: &S,
    query: Seq<char>,
    after: Timestamp,
    found: Result<Vec<NoteMetadata>, MemoryError>,
) -> bool {
    exists|text: &str|
        text@ == query && #[trigger] call_ensures(S::search_since, (store, text, after), found)
}

} // verus!

verus! {

/// Filtering the first `i + 1` items adds item `i` when it is kept.
pub proof fn lemma_filter_take_step<A>(s: Seq<A>, pred: spec_fn(A) -> bool, i: int)
    requires
        0 <= i < s.len(),
    ensures
        s.take(i + 1).filter(pred) == if pred(s[i]) {
            s.take(i).filter(pred).push(s[i])
        } else {
            s.take(i).filter(pred)
        },
{
    reveal(Seq::filter);
    assert(s.take(i + 1).drop_last() =~= s.take(i));
    assert(s.take(i + 1).last() == s[i]);
}

/// Whether one of `tags` reads, in lowercase, as `query_lower`.
fn tags_match(tags: &Vec<String>, query_lower: &String) -> (r: bool)
    ensures
        r == exists|i: int| 0 <= i < tags@.len() && lowercase(#[trigger] tags@[i]@) == query_lower@,
{
    let mut i: usize = 0;
    while i < tags.len()
        invariant
            0 <= i <= tags@.len(),
            forall|j: int| 0 <= j < i ==> lowercase(#[trigger] tags@[j]@) != query_lower@,
        decreases tags@.len() - i,
    {
        let tag_lower = to_lowercase(tags[i].as_str());
        if tag_lower == *query_lower {
            return true;
        }
        i = i + 1;
    }
    false
}

/// Whether `note` answers the query whose lowercase form is `query_lower`.
fn note_answers(note: &NoteMetadata, query_lower: &String, Ghost(query): Ghost<Seq<char>>) -> (r:
    bool)
    requires
        query_lower@ == lowercase(query),
    ensures
        r == note.answers(query),
{
    let title_lower = to_lowercase(note.title.as_str());
    contains_text(title_lower.as_str(), query_lower.as_str()) || tags_match(&note.tags, query_lower)
}

/// A note store backed by a local directory of JSON files, one note per file.
pub struct LocalNoteStore {
    path: String,
}

impl LocalNoteStore {
    /// Create a new `LocalNoteStore` rooted at `path`.
    pub fn new(path: String) -> (r: Self)
        ensures
            r.root() == path@,
    {
        LocalNoteStore { path }
    }

    /// The directory that holds the notes.
    pub closed spec fn root(&self) -> Seq<char> {
        self.path@
    }

    /// The directory that holds the notes.
    pub fn path(&self) -> (r: &str)
        ensures
            r@ == self.root(),
    {
        self.path.as_str()
    }

    /// The notes of `notes` that answer `query`, in their order.
    pub fn search_in(notes: Vec<NoteMetadata>, query: &str) -> (r: Vec<NoteMetadata>)
        ensures
            r@ == notes_matching(notes@, query@),
    {
        let query_lower = to_lowercase(query);
        let ghost all = notes@;
        let ghost pred = |n: NoteMetadata| n.answers(query@);
        let mut out: Vec<NoteMetadata> = Vec::new();
        for note in it: notes.into_iter()
            invariant
                query_lower@ == lowercase(query@),
                it.seq() == all,
                pred == (|n: NoteMetadata| n.answers(query@)),
                out@ == all.take(it.index() as int).filter(pred),
        {
            let ghost k = it.index() as int;
            proof {
                lemma_filter_take_step(all, pred, k);
            }
            if note_answers(&note, &query_lower, Ghost(query@)) {
                out.push(note);
            }
        }
        assert(all.take(all.len() as int) =~= all);
        out
    }

    /// The notes of `notes` that answer `query` and were created at
    /// `created_after` or later, in their order.
    pub fn search_since_in(notes: Vec<NoteMetadata>, query: &str, created_after: Timestamp) -> (r:
        Vec<NoteMetadata>)
        ensures
            r@ == notes_matching_since(notes@, query@, created_after),
    {
        let query_lower = to_lowercase(query);
        let ghost all = notes@;
        let ghost pred = |n: NoteMetadata| n.answers_since(query@, created_after);
        let mut out: Vec<NoteMetadata> = Vec::new();
        for note in it: notes.into_iter()
            invariant
                query_lower@ == lowercase(query@),
                it.seq() == all,
                pred == (|n: NoteMetadata| n.answers_since(query@, created_after)),
                out@ == all.take(it.index() as int).filter(pred),
        {
            let ghost k = it.index() as int;
            proof {
                lemma_filter_take_step(all, pred, k);
            }
            if note_answers(&note, &query_lower, Ghost(query@)) && note.created.at_or_after(
                &created_after,
            ) {
                out.push(note);
            }
        }
        assert(all.take(all.len() as int) =~= all);
        out
    }

    /// Whether a directory entry named `file_name` holds a note: its name has
    /// the extension `json` (a name that starts with its only dot has none).
    pub fn is_note_file(file_name: &str) -> (r: bool)
        ensures
            r == is_note_file_name(file_name@),
    {
        let name = chars_of(file_name);
        let suffix = chars_of(".json");
        proof {
            reveal_strlit(".json");
        }
        if name.len() <= suffix.len() {
            return false;
        }
        let name_len: usize = name.len();
        let start: usize = name_len - suffix.len();
        let mut j: usize = 0;
        while j < suffix.len()
            invariant
                name@ == file_name@,
                suffix@ == ".json"@,
                suffix@.len() < name@.len(),
                start == name@.len() - suffix@.len(),
                name_len == name@.len(),
                0 <= j <= suffix@.len(),
                forall|t: int| 0 <= t < j ==> name@[start + t] == suffix@[t],
            decreases suffix@.len() - j,
        {
            if name[start + j] != suffix[j] {
                assert(name@.subrange(start as int, name@.len() as int)[j as int] != suffix@[j as int]);
                return false;
            }
            j = j + 1;
        }
        assert(name@.subrange(start as int, name@.len() as int) =~= suffix@);
        true
    }
}

/// Whether a file name has the extension `json`, as `Path::extension` reads
/// it: the name ends in `.json` and something stands before that dot.
pub open spec fn is_note_file_name(name: Seq<char>) -> bool {
    let ext = ".json"@;
    name.len() > ext.len() && name.subrange(name.len() - ext.len(), name.len() as int) == ext
}

} // verus!

verus! {

/// Filtering by `p` and then by `q` keeps what filtering by both keeps.
proof fn lemma_filter_twice<A>(s: Seq<A>, p: spec_fn(A) -> bool, q: spec_fn(A) -> bool, both: spec_fn(A) -> bool)
    requires
        forall|a: A| #[trigger] both(a) == (p(a) && q(a)),
    ensures
        s.filter(p).filter(q) == s.filter(both),
    decreases s.len(),
{
    reveal(Seq::filter);
    if s.len() > 0 {
        lemma_filter_twice(s.drop_last(), p, q, both);
        let last = s.last();
        if p(last) {
            assert(s.filter(p).drop_last() =~= s.drop_last().filter(p));
            assert(s.filter(p).last() == last);
        } else {
            assert(s.filter(p) == s.drop_last().filter(p));
        }
    }
}

/// A search since a timestamp selects, of what the plain search selects, the
/// notes created at that timestamp or later, in the same order.
pub proof fn lemma_search_since_narrows_search(notes: Seq<NoteMetadata>, query: Seq<char>, after: Timestamp)
    ensures
        notes_matching_since(notes, query, after) == notes_matching(notes, query).filter(
            |n: NoteMetadata| n.created.spec_at_or_after(after),
        ),
{
    lemma_filter_twice(
        notes,
        |n: NoteMetadata| n.answers(query),
        |n: NoteMetadata| n.created.spec_at_or_after(after),
        |n: NoteMetadata| n.answers_since(query, after),
    );
}

/// The case in which a query is written does not change what a search
/// selects: two queries with the same lowercase form select the same notes.
pub proof fn lemma_search_ignores_query_case(notes: Seq<NoteMetadata>, q1: Seq<char>, q2: Seq<char>)
    requires
        lowercase(q1) == lowercase(q2),
    ensures
        notes_matching(notes, q1) == notes_matching(notes, q2),
        forall|after: Timestamp|
            #[trigger] notes_matching_since(notes, q1, after) == notes_matching_since(notes, q2, after),
{
    assert((|n: NoteMetadata| n.answers(q1)) =~= (|n: NoteMetadata| n.answers(q2)));
    assert forall|after: Timestamp|
        #[trigger] notes_matching_since(notes, q1, after) == notes_matching_since(notes, q2, after) by {
        assert((|n: NoteMetadata| n.answers_since(q1, after)) =~= (|n: NoteMetadata| n.answers_since(q2, after)));
    }
}

/// A search selects exactly the notes that answer the query: every note it
/// returns answers, every note that answers is returned, and it returns no
/// more notes than it was given.
pub proof fn lemma_search_selects_answers(notes: Seq<NoteMetadata>, query: Seq<char>)
    ensures
        forall|i: int|
            0 <= i < notes_matching(notes, query).len() ==> (#[trigger] notes_matching(notes, query)[i]).answers(query),
        forall|i: int|
            0 <= i < notes.len() && (#[trigger] notes[i]).answers(query) ==> notes_matching(notes, query).contains(notes[i]),
        notes_matching(notes, query).len() <= notes.len(),
{
    let pred = |n: NoteMetadata| n.answers(query);
    assert forall|i: int|
        0 <= i < notes_matching(notes, query).len() implies (#[trigger] notes_matching(notes, query)[i]).answers(query) by {
        notes.lemma_filter_pred(pred, i);
    }
    assert forall|i: int|
        0 <= i < notes.len() && (#[trigger] notes[i]).answers(query) implies notes_matching(notes, query).contains(notes[i]) by {
        notes.lemma_filter_contains(pred, i);
    }
    notes.lemma_filter_len(pred);
}

} // verus!

verus! {

/// A later cutoff never adds notes: searching since `t2` selects, of what
/// searching since an earlier or equal `t1` selects, the notes created at
/// `t2` or later, in the same order.
pub proof fn lemma_later_cutoff_narrows(notes: Seq<NoteMetadata>, query: Seq<char>, t1: Timestamp, t2: Timestamp)
    requires
        t1.unix_nanos <= t2.unix_nanos,
    ensures
        notes_matching_since(notes, query, t2) == notes_matching_since(notes, query, t1).filter(
            |n: NoteMetadata| n.created.spec_at_or_after(t2),
        ),
        notes_matching_since(notes, query, t2).len() <= notes_matching_since(notes, query, t1).len(),
{
    lemma_filter_twice(
        notes,
        |n: NoteMetadata| n.answers_since(query, t1),
        |n: NoteMetadata| n.created.spec_at_or_after(t2),
        |n: NoteMetadata| n.answers_since(query, t2),
    );
    notes_matching_since(notes, query, t1).lemma_filter_len(|n: NoteMetadata| n.created.spec_at_or_after(t2));
}

/// The cutoff is inclusive: a note that answers the query is selected by a
/// search since the very instant it was created.
pub proof fn lemma_cutoff_is_inclusive(notes: Seq<NoteMetadata>, query: Seq<char>, i: int)
    requires
        0 <= i < notes.len(),
        notes[i].answers(query),
    ensures
        notes_matching_since(notes, query, notes[i].created).contains(notes[i]),
{
    let after = notes[i].created;
    notes.lemma_filter_contains(|n: NoteMetadata| n.answers_since(query, after), i);
}

} // verus!

verus! {

/// Lowering an ASCII text after raising it, or lowering it twice, gives its
/// lowercase form.
proof fn lemma_ascii_case_folds(q: Seq<char>)
    requires
        is_ascii_text(q),
    ensures
        lowercase(ascii_uppercase(q)) == lowercase(q),
        lowercase(lowercase(q)) == lowercase(q),
{
    let up = ascii_uppercase(q);
    let low = ascii_lowercase(q);
    assert forall|i: int| 0 <= i < q.len() implies {
        &&& (#[trigger] up[i]) as u32 <= 0x7f
        &&& ascii_lower_char(up[i]) == ascii_lower_char(q[i])
        &&& low[i] as u32 <= 0x7f
        &&& ascii_lower_char(low[i]) == low[i]
    } by {
        let c = q[i];
        assert(c as u32 <= 0x7f);
        assert(up[i] == ascii_upper_char(c));
        assert(low[i] == ascii_lower_char(c));
    }
    assert(is_ascii_text(up));
    assert(is_ascii_text(low));
    assert(ascii_lowercase(up) =~= low);
    assert(ascii_lowercase(low) =~= low);
}

/// The empty text occurs in every text, and lowers to itself.
proof fn lemma_empty_query_answers_every_note(n: NoteMetadata)
    ensures
        n.answers(Seq::empty()),
{
    let e = Seq::<char>::empty();
    assert(ascii_lowercase(e) =~= e);
    assert(lowercase(e) == e);
    let t = lowercase(n.title@);
    assert(t.subrange(0int, 0int + e.len()) =~= e);
    assert(occurs_in(e, t));
}

/// A filter that keeps every item keeps the sequence as it is.
proof fn lemma_filter_keeps_all<A>(s: Seq<A>, pred: spec_fn(A) -> bool)
    requires
        forall|a: A| #[trigger] pred(a),
    ensures
        s.filter(pred) == s,
    decreases s.len(),
{
    reveal(Seq::filter);
    if s.len() > 0 {
        lemma_filter_keeps_all(s.drop_last(), pred);
        assert(s.drop_last().push(s.last()) =~= s);
    }
}

/// The empty query selects every note, in order.
pub proof fn lemma_empty_query_selects_every_note(notes: Seq<NoteMetadata>)
    ensures
        notes_matching(notes, Seq::empty()) == notes,
{
    let pred = |m: NoteMetadata| m.answers(Seq::empty());
    assert forall|n: NoteMetadata| #[trigger] pred(n) by {
        lemma_empty_query_answers_every_note(n);
    }
    lemma_filter_keeps_all(notes, pred);
}

/// Searching ignores the case of ASCII letters: an ASCII query, its ASCII
/// uppercase and its lowercase select the same notes, with or without a
/// cutoff.
pub proof fn lemma_search_ignores_ascii_case(notes: Seq<NoteMetadata>, query: Seq<char>)
    requires
        is_ascii_text(query),
    ensures
        notes_matching(notes, ascii_uppercase(query)) == notes_matching(notes, query),
        notes_matching(notes, lowercase(query)) == notes_matching(notes, query),
        forall|after: Timestamp|
            #[trigger] notes_matching_since(notes, ascii_uppercase(query), after)
                == notes_matching_since(notes, query, after),
        forall|after: Timestamp|
            #[trigger] notes_matching_since(notes, lowercase(query), after)
                == notes_matching_since(notes, query, after),
{
    lemma_ascii_case_folds(query);
    lemma_search_ignores_query_case(notes, ascii_uppercase(query), query);
    lemma_search_ignores_query_case(notes, lowercase(query), query);
}

} // verus!

verus! {

/// A note answers a query exactly when the lowercase query occurs somewhere
/// in its lowercase title (at any position, not only at its start) or equals
/// one of its lowercase tags.
pub proof fn lemma_answers_by_title_or_tag(n: NoteMetadata, query: Seq<char>)
    ensures
        forall|i: int|
            0 <= i && i + lowercase(query).len() <= lowercase(n.title@).len() && #[trigger] lowercase(
                n.title@,
            ).subrange(i, i + lowercase(query).len()) == lowercase(query) ==> n.answers(query),
        forall|k: int|
            0 <= k < n.tags@.len() && lowercase(#[trigger] n.tags@[k]@) == lowercase(query) ==> n.answers(query),
        n.answers(query) ==> (exists|i: int|
            0 <= i && i + lowercase(query).len() <= lowercase(n.title@).len() && #[trigger] lowercase(
                n.title@,
            ).subrange(i, i + lowercase(query).len()) == lowercase(query)) || (exists|k: int|
            0 <= k < n.tags@.len() && lowercase(#[trigger] n.tags@[k]@) == lowercase(query)),
{
}

/// A search finds every note whose lowercase title holds the lowercase query
/// at any position.
pub proof fn lemma_search_finds_title_substring(notes: Seq<NoteMetadata>, query: Seq<char>, j: int, i: int)
    requires
        0 <= j < notes.len(),
        0 <= i,
        i + lowercase(query).len() <= lowercase(notes[j].title@).len(),
        lowercase(notes[j].title@).subrange(i, i + lowercase(query).len()) == lowercase(query),
    ensures
        notes_matching(notes, query).contains(notes[j]),
{
    lemma_answers_by_title_or_tag(notes[j], query);
    notes.lemma_filter_contains(|n: NoteMetadata| n.answers(query), j);
}

/// A search since `after` keeps only notes created at that instant or later,
/// and keeps every answering note created then or later; a note created
/// before the instant, even on the same day, is never kept.
pub proof fn lemma_cutoff_compares_instants(notes: Seq<NoteMetadata>, query: Seq<char>, after: Timestamp)
    ensures
        forall|i: int|
            0 <= i < notes_matching_since(notes, query, after).len() ==> (#[trigger] notes_matching_since(
                notes,
                query,
                after,
            )[i]).created.unix_nanos >= after.unix_nanos,
        forall|i: int|
            0 <= i < notes.len() && (#[trigger] notes[i]).answers(query) && notes[i].created.unix_nanos
                >= after.unix_nanos ==> notes_matching_since(notes, query, after).contains(notes[i]),
        forall|n: NoteMetadata|
            n.created.unix_nanos < after.unix_nanos ==> !(#[trigger] n.answers_since(query, after)),
{
    let pred = |n: NoteMetadata| n.answers_since(query, after);
    assert forall|i: int|
        0 <= i < notes_matching_since(notes, query, after).len() implies (#[trigger] notes_matching_since(
            notes,
            query,
            after,
        )[i]).created.unix_nanos >= after.unix_nanos by {
        notes.lemma_filter_pred(pred, i);
    }
    assert forall|i: int|
        0 <= i < notes.len() && (#[trigger] notes[i]).answers(query) && notes[i].created.unix_nanos
            >= after.unix_nanos implies notes_matching_since(notes, query, after).contains(notes[i]) by {
        notes.lemma_filter_contains(pred, i);
    }
}

} // verus!
