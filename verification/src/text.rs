//! Text helpers shared by the dispatchers.

use vstd::prelude::*;
use vstd::string::StringExecFns;

verus! {

/// Whether `text` holds a NUL character. An engine that takes C strings
/// cannot be handed such a text.
pub open spec fn has_nul(text: Seq<char>) -> bool {
    exists|i: int| 0 <= i < text.len() && text[i] == '\0'
}

/// Whether `text` starts with `prefix`.
pub open spec fn starts_with(text: Seq<char>, prefix: Seq<char>) -> bool {
    prefix.len() <= text.len() && text.subrange(0, prefix.len() as int) == prefix
}

/// A text put together from a prefix and a detail starts with the prefix.
pub proof fn lemma_concat_starts_with(prefix: Seq<char>, detail: Seq<char>)
    ensures
        starts_with(prefix + detail, prefix),
{
    assert((prefix + detail).subrange(0, prefix.len() as int) =~= prefix);
}

/// Scans `text` for a NUL character.
pub fn contains_nul(text: &str) -> (found: bool)
    ensures
        found == has_nul(text@),
{
    let mut found = false;
    for c in it: text.chars()
        invariant
            it.seq() == text@,
            found == exists|i: int| 0 <= i < it.index() && text@[i] == '\0',
    {
        if c == '\0' {
            found = true;
        }
    }
    found
}

/// `prefix` followed by `detail`, as a new string.
pub fn with_prefix(prefix: &str, detail: &str) -> (text: String)
    ensures
        text@ == prefix@ + detail@,
{
    String::from_str(prefix).concat(detail)
}

} // verus!
