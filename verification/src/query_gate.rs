//! The read-only query policy consulted before any query reaches a backend.
//!
//! The policy is a prefix check on the lower-cased, trimmed query text, not a
//! parser: anything textually beginning with an allowed keyword passes, and
//! the backend itself rejects whatever is not valid SQL.

use vstd::prelude::*;

use crate::error::QgoError;
use crate::text::{has_prefix, starts_with_str, trim_of, trim_ws};

verus! {

/// What `str::to_lowercase` returns: the Unicode lowercase form of the text,
/// a function of the characters alone.
pub uninterp spec fn lower_of(s: Seq<char>) -> Seq<char>;

/// Relies on `str::to_lowercase`: the result depends on the characters
/// alone, and an empty input stays empty.
#[verifier::external_body]
fn lowercase(s: &str) -> (r: String)
    ensures
        r@ == lower_of(s@),
        s@.len() == 0 ==> r@.len() == 0,
{
    s.to_lowercase()
}

/// Whether `s` starts with one of the keywords that mark a read-only query.
pub open spec fn allowed_keyword_prefix(s: Seq<char>) -> bool {
    ||| has_prefix(s, "select"@)
    ||| has_prefix(s, "show"@)
    ||| has_prefix(s, "describe"@)
    ||| has_prefix(s, "explain"@)
    ||| has_prefix(s, "with"@)
}

/// The policy that allows only read-only-looking queries through.
pub struct QueryGate;

impl QueryGate {
    /// Decides whether `raw` may reach the backend. The trimmed text must be
    /// non-empty and, lower-cased, must start with `select`, `show`,
    /// `describe`, `explain` or `with`; exactly those prefixes are accepted,
    /// case-insensitively, and everything else is rejected without any
    /// backend call.
    pub fn check(raw: &str) -> (r: Result<(), QgoError>)
        ensures
            r is Ok <==> trim_of(raw@).len() > 0 && allowed_keyword_prefix(
                lower_of(trim_of(raw@)),
            ),
            r == Err::<(), QgoError>(QgoError::EmptyQuery) <==> trim_of(raw@).len() == 0,
            r == Err::<(), QgoError>(QgoError::WriteOrUnsafeQuery) <==> trim_of(raw@).len() > 0
                && !allowed_keyword_prefix(lower_of(trim_of(raw@))),
    {
        let trimmed = trim_ws(raw);
        if trimmed.unicode_len() == 0 {
            return Err(QgoError::EmptyQuery);
        }
        let lowered = lowercase(trimmed);
        let l = lowered.as_str();
        if starts_with_str(l, "select") || starts_with_str(l, "show") || starts_with_str(
            l,
            "describe",
        ) || starts_with_str(l, "explain") || starts_with_str(l, "with") {
            Ok(())
        } else {
            Err(QgoError::WriteOrUnsafeQuery)
        }
    }
}

} // verus!
