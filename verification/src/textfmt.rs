//! Text shaping for fixed-width table columns.

use vstd::prelude::*;

verus! {

/// A string cut to `max_len` characters: unchanged when it fits, else
/// its first `max_len - 3` characters with a three-dot ellipsis.
pub open spec fn truncated(s: Seq<char>, max_len: int) -> Seq<char> {
    if s.len() <= max_len {
        s
    } else {
        s.subrange(0, max_len - 3) + "..."@
    }
}

/// Cuts a string to at most `max_len` characters for a fixed-width
/// column, ending a cut string with a three-dot ellipsis.
pub fn truncate_str(s: &str, max_len: usize) -> (r: String)
    requires
        max_len >= 3,
    ensures
        r@ == truncated(s@, max_len as int),
{
    let n = s.unicode_len();
    if n <= max_len {
        String::from_str(s)
    } else {
        let head = s.substring_char(0, max_len - 3);
        let mut r = String::from_str(head);
        r.append("...");
        r
    }
}

} // verus!
