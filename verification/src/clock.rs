//! Instants as stored on records, and their RFC 3339 text.

use vstd::prelude::*;

verus! {

/// An instant as whole seconds since the Unix epoch plus nanoseconds.
#[derive(Debug, Clone, Copy, PartialEq, Eq, Structural)]
pub struct Timestamp {
    pub secs: i64,
    pub nanos: u32,
}

/// The RFC 3339 text that chrono writes for a UTC instant, or `None` when chrono
/// cannot represent the instant.
pub uninterp spec fn chrono_rfc3339(secs: i64, nanos: u32) -> Option<Seq<char>>;

/// Calls `chrono::DateTime::<Utc>::from_timestamp` and then `DateTime::to_rfc3339`.
/// Claimed: the result is the text chrono writes for these two numbers (named
/// `chrono_rfc3339`), `None` exactly when chrono has no such instant. What that
/// text is on given numbers is left unsaid.
#[verifier::external_body]
fn rfc3339_text(secs: i64, nanos: u32) -> (r: Option<String>)
    ensures
        match r {
            Some(s) => chrono_rfc3339(secs, nanos) == Some(s@),
            None => chrono_rfc3339(secs, nanos) is None,
        },
{
    match chrono::DateTime::from_timestamp(secs, nanos) {
        Some(t) => Some(t.to_rfc3339()),
        None => None,
    }
}

/// The text a record shows for an instant: chrono's RFC 3339 text, or the empty
/// text when chrono cannot represent it.
pub open spec fn instant_text(t: Timestamp) -> Seq<char> {
    match chrono_rfc3339(t.secs, t.nanos) {
        Some(s) => s,
        None => Seq::empty(),
    }
}

impl Timestamp {
    /// The instant as RFC 3339 text.
    pub fn to_rfc3339(&self) -> (r: String)
        ensures
            r@ == instant_text(*self),
    {
        match rfc3339_text(self.secs, self.nanos) {
            Some(s) => s,
            None => String::new(),
        }
    }
}

} // verus!
