//! C# plugin helpers for scanning source lines.

use vstd::prelude::*;
use crate::text::{
    str_chars, chars_to_string, first_occurrence, find_str, has_prefix, trim_start, is_ws, char_is_ws,
    lemma_lead_ws_char, slice_chars, starts_with_str,
};

verus! {

/// The part of `line` before its first `//`, or the whole line.
pub open spec fn code_before_comment(line: Seq<char>) -> Seq<char> {
    match first_occurrence(line, "//"@) {
        Some(i) => line.subrange(0, i),
        None => line,
    }
}

/// Strips a single-line comment from a line of code.
pub fn strip_single_line_comments(line: &str) -> (r: String)
    ensures
        r@ == code_before_comment(line@),
{
    let l = str_chars(line);
    match find_str(&l, "//") {
        Some(i) => {
            proof {
                crate::text::lemma_first_occurrence_some(l@, "//"@, 0, i as int);
            }
            chars_to_string(&slice_chars(&l, 0, i))
        },
        None => chars_to_string(&l),
    }
}

/// A line that opens or continues a block comment: after its indentation it
/// starts with `/*` or `*`.
pub open spec fn comment_block_line(line: Seq<char>) -> bool {
    has_prefix(trim_start(line), "/*"@) || has_prefix(trim_start(line), "*"@)
}

/// Checks (without state) whether a line belongs to a multi-line comment.
pub fn is_in_multiline_comment(line: &str) -> (r: bool)
    ensures
        r == comment_block_line(line@),
{
    let l = str_chars(line);
    let n = l.len();
    let mut a: usize = 0;
    while a < n && char_is_ws(l[a])
        invariant
            n == l@.len(),
            a <= n,
            forall|j: int| 0 <= j < a ==> is_ws(#[trigger] l@[j]),
        decreases n - a,
    {
        a = a + 1;
    }
    proof {
        lemma_lead_ws_char(l@, a as int);
    }
    let rest = slice_chars(&l, a, n);
    starts_with_str(&rest, "/*") || starts_with_str(&rest, "*")
}

} // verus!
