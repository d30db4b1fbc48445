//! Naming conventions for extracted constants.

use vstd::prelude::*;
use crate::text::{is_digit, is_upper, char_is_digit, char_is_upper, str_chars};

verus! {

/// A character allowed in a SCREAMING_SNAKE_CASE name.
pub open spec fn screaming_char(c: char) -> bool {
    is_upper(c) || is_digit(c) || c == '_'
}

/// `s` is SCREAMING_SNAKE_CASE: non-empty, only `A-Z`, `0-9` and `_`,
/// not starting or ending with `_`, and holding at least one upper-case letter.
pub open spec fn is_screaming_snake(s: Seq<char>) -> bool {
    &&& s.len() > 0
    &&& s[0] != '_'
    &&& s[s.len() - 1] != '_'
    &&& forall|i: int| 0 <= i < s.len() ==> #[trigger] screaming_char(s[i])
    &&& exists|i: int| 0 <= i < s.len() && #[trigger] is_upper(s[i])
}

/// Checks whether a proposed constant name follows SCREAMING_SNAKE_CASE.
pub fn is_screaming_snake_case(name: &str) -> (r: bool)
    ensures
        r == is_screaming_snake(name@),
{
    let cs = str_chars(name);
    let n = cs.len();
    if n == 0 {
        return false;
    }
    if cs[0] == '_' || cs[n - 1] == '_' {
        return false;
    }
    let mut i: usize = 0;
    let mut has_upper = false;
    while i < n
        invariant
            n == cs@.len(),
            cs@ == name@,
            i <= n,
            forall|j: int| 0 <= j < i ==> #[trigger] screaming_char(cs@[j]),
            has_upper <==> exists|j: int| 0 <= j < i && #[trigger] is_upper(cs@[j]),
        decreases n - i,
    {
        let c = cs[i];
        let up = char_is_upper(c);
        if !(up || char_is_digit(c) || c == '_') {
            assert(!screaming_char(cs@[i as int]));
            return false;
        }
        if up {
            has_upper = true;
        }
        i = i + 1;
    }
    has_upper
}

} // verus!
