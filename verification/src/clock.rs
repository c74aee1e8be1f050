//! RFC 3339 date checks, through `chrono`.
use vstd::prelude::*;

verus! {

/// Whether `chrono::DateTime::parse_from_rfc3339` accepts the text.
pub uninterp spec fn rfc3339_accepted(text: Seq<char>) -> bool;

/// Calls `chrono::DateTime::parse_from_rfc3339` and reports whether it succeeded.
#[verifier::external_body]
pub(crate) fn parses_as_rfc3339(text: &str) -> (r: bool)
    ensures
        r == rfc3339_accepted(text@),
{
    chrono::DateTime::parse_from_rfc3339(text).is_ok()
}

} // verus!
