//! Instants in time, kept as plain integers, and their RFC 3339 reading.

use vstd::prelude::*;

verus! {

/// An instant with the UTC offset it was written in: nanoseconds since the
/// Unix epoch, and the offset in seconds east of UTC.
/// Two timestamps are ordered by the instant alone.
#[derive(Clone, Copy, Debug, PartialEq, Eq, Structural)]
pub struct Timestamp {
    pub unix_nanos: i128,
    pub offset_seconds: i32,
}

impl Timestamp {
    /// Whether `self` is the same instant as `other` or a later one.
    pub open spec fn spec_at_or_after(self, other: Timestamp) -> bool {
        self.unix_nanos >= other.unix_nanos
    }

    /// Whether `self` is the same instant as `other` or a later one.
    pub fn at_or_after(&self, other: &Timestamp) -> (r: bool)
        ensures
            r == self.spec_at_or_after(*other),
    {
        self.unix_nanos >= other.unix_nanos
    }
}

/// What reading `text` as an RFC 3339 date-time gives: the instant in
/// nanoseconds since the Unix epoch and the offset in seconds, or the
/// message of the parse error.
pub uninterp spec fn rfc3339_outcome(text: Seq<char>) -> Result<(i128, i32), Seq<char>>;

/// Calls `time::OffsetDateTime::parse` with the RFC 3339 format description.
/// Its outcome is named by `rfc3339_outcome` of the text: the instant and
/// offset on success, the error's message on failure. The grammar and the
/// calendar arithmetic of the parse are not restated.
#[verifier::external_body]
pub(crate) fn parse_rfc3339(text: &str) -> (r: Result<Timestamp, String>)
    ensures
        match r {
            Ok(t) => rfc3339_outcome(text@) == Ok::<(i128, i32), Seq<char>>(
                (t.unix_nanos, t.offset_seconds),
            ),
            Err(m) => rfc3339_outcome(text@) == Err::<(i128, i32), Seq<char>>(m@),
        },
{
    match time::OffsetDateTime::parse(text, &time::format_description::well_known::Rfc3339) {
        Ok(t) => Ok(Timestamp { unix_nanos: t.unix_timestamp_nanos(), offset_seconds: t.offset().whole_seconds() }),
        Err(e) => Err(e.to_string()),
    }
}

} // verus!

verus! {

/// Timestamps are ordered by their instant alone: `a` is at or after `b`
/// exactly when its nanoseconds since the epoch are at least `b`'s, whatever
/// the offsets, and a timestamp is at or after itself.
pub proof fn lemma_at_or_after_is_instant_order(a: Timestamp, b: Timestamp)
    ensures
        a.spec_at_or_after(b) <==> a.unix_nanos >= b.unix_nanos,
        a.unix_nanos < b.unix_nanos ==> !a.spec_at_or_after(b),
        a.spec_at_or_after(a),
{
}

} // verus!
