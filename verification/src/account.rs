//! Account identifiers and their well-formedness.

use vstd::prelude::*;

verus! {

/// The characters that may separate the parts of an account identifier.
pub open spec fn is_separator(c: char) -> bool {
    c == '-' || c == '_' || c == '.'
}

/// Lower-case ASCII letters and digits.
pub open spec fn is_plain(c: char) -> bool {
    ('a' <= c && c <= 'z') || ('0' <= c && c <= '9')
}

/// A well-formed account identifier: between 2 and 64 characters, each a
/// lower-case letter, a digit or a separator, where no separator stands
/// first, last, or next to another separator.
pub open spec fn valid_account_id(id: Seq<char>) -> bool {
    &&& 2 <= id.len() <= 64
    &&& forall|i: int| 0 <= i < id.len() ==> is_plain(#[trigger] id[i]) || is_separator(id[i])
    &&& !is_separator(id[0])
    &&& !is_separator(id[id.len() - 1])
    &&& forall|i: int|
        0 <= i < id.len() - 1 ==> !(is_separator(#[trigger] id[i]) && is_separator(id[i + 1]))
}

/// Calls `near_sdk::env::is_valid_account_id` on the identifier's bytes.
///
/// Trusted: the host library accepts exactly the identifiers that
/// `valid_account_id` describes. It checks the byte length against 2 and 64,
/// then walks the bytes, refusing any byte outside `a-z`, `0-9`, `-`, `_`, `.`
/// and any separator that follows the start or another separator, and finally
/// refuses a trailing separator. A character outside ASCII is encoded in bytes
/// that it refuses, so the statement over characters holds of every string.
#[verifier::external_body]
pub(crate) fn is_valid_account_id(id: &String) -> (ok: bool)
    ensures
        ok == valid_account_id(id@),
{
    near_sdk::env::is_valid_account_id(id.as_bytes())
}

} // verus!
