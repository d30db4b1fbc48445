//! Calls into the `regex` crate. Each result that depends on what a pattern
//! matches is given a name; the library's own logic is verified against those
//! names.

use vstd::prelude::*;

verus! {

/// What `Regex::new(pattern)` followed by `is_match(text)` gives: `None` when
/// the pattern does not compile.
pub uninterp spec fn regex_match_outcome(pattern: Seq<char>, text: Seq<char>) -> Option<bool>;

/// Compiles `pattern` with `regex::Regex::new` and tests it against `text`
/// with `Regex::is_match`. The result is named, not described.
#[verifier::external_body]
pub(crate) fn regex_is_match(pattern: &str, text: &str) -> (r: Option<bool>)
    ensures
        r == regex_match_outcome(pattern@, text@),
{
    regex::Regex::new(pattern).ok().map(|re| re.is_match(text))
}

/// A regex meta character: one that `regex::escape` puts a backslash before.
pub open spec fn regex_meta_char(c: char) -> bool {
    c == '\\' || c == '.' || c == '+' || c == '*' || c == '?' || c == '(' || c == ')' || c == '|'
        || c == '[' || c == ']' || c == '{' || c == '}' || c == '^' || c == '$' || c == '#' || c == '&'
        || c == '-' || c == '~'
}

/// What `regex::escape(s)` returns: `s` with a backslash before each meta
/// character.
pub open spec fn regex_escape_of(s: Seq<char>) -> Seq<char>
    decreases s.len(),
{
    if s.len() == 0 {
        Seq::empty()
    } else {
        let c = s.last();
        regex_escape_of(s.drop_last()) + if regex_meta_char(c) { seq!['\\', c] } else { seq![c] }
    }
}

/// Calls `regex::escape`, which (through `regex_syntax::escape`) writes each
/// character of `s`, with a backslash before each regex meta character.
#[verifier::external_body]
pub(crate) fn regex_escape(s: &str) -> (r: String)
    ensures
        r@ == regex_escape_of(s@),
{
    regex::escape(s)
}

/// The text of capture group `group` of every match of `pattern` in `text`, in
/// order (`None` when the pattern does not compile).
pub uninterp spec fn regex_group_texts(pattern: Seq<char>, text: Seq<char>, group: nat) -> Option<Seq<Seq<char>>>;

/// Compiles `pattern` and walks `Regex::captures_iter` over `text`, keeping the
/// text of group `group` of each match (empty where the group took no part).
/// The result is named, not described.
#[verifier::external_body]
pub(crate) fn regex_capture_groups(pattern: &str, text: &str, group: usize) -> (r: Option<Vec<String>>)
    ensures
        match r {
            Some(v) => regex_group_texts(pattern@, text@, group as nat) == Some(
                v@.map_values(|s: String| s@),
            ),
            None => regex_group_texts(pattern@, text@, group as nat) is None,
        },
{
    let re = regex::Regex::new(pattern).ok()?;
    Some(re.captures_iter(text).map(|c| c.get(group).map_or("", |m| m.as_str()).to_string()).collect())
}

/// For every match of `pattern` in `text`: the text before the match, the
/// match, and its first capture group (`None` when the pattern does not compile).
pub uninterp spec fn regex_match_contexts(pattern: Seq<char>, text: Seq<char>) -> Option<Seq<(Seq<char>, Seq<char>, Seq<char>)>>;

/// Compiles `pattern` and walks `Regex::captures_iter` over `text`; each match
/// is handed out as the text before it, the matched text and the text of group
/// 1. The result is named; of each match it is stated only that the text
/// before it and the match make up a prefix of `text` (a match spans
/// `Match::start..Match::end` of the haystack).
#[verifier::external_body]
pub(crate) fn regex_captures_in_context(pattern: &str, text: &str) -> (r: Option<Vec<(String, String, String)>>)
    ensures
        match r {
            Some(v) => regex_match_contexts(pattern@, text@) == Some(
                v@.map_values(|t: (String, String, String)| (t.0@, t.1@, t.2@)),
            ) && forall|k: int| 0 <= k < v@.len() ==> {
                let t = #[trigger] v@[k];
                &&& t.0@.len() + t.1@.len() <= text@.len()
                &&& text@.subrange(0, (t.0@.len() + t.1@.len()) as int) == t.0@ + t.1@
            },
            None => regex_match_contexts(pattern@, text@) is None,
        },
{
    let re = regex::Regex::new(pattern).ok()?;
    Some(re.captures_iter(text).map(|c| {
        let m = c.get(0).unwrap();
        let g = c.get(1).map_or("", |g| g.as_str());
        (text[..m.start()].to_string(), m.as_str().to_string(), g.to_string())
    }).collect())
}

/// The first match of `pattern` in `text` as (text before, match, text after);
/// `Some(None)` when nothing matches, `None` when the pattern does not compile.
pub uninterp spec fn regex_first_split(pattern: Seq<char>, text: Seq<char>) -> Option<Option<(Seq<char>, Seq<char>, Seq<char>)>>;

/// Compiles `pattern` and finds its first match in `text` with `Regex::find`,
/// handing it out as the three pieces of `text` around and in the match. A
/// match is a substring of the haystack (`Match::start`..`Match::end`), so the
/// three pieces put together are `text`; nothing more is stated.
#[verifier::external_body]
pub(crate) fn regex_find_split(pattern: &str, text: &str) -> (r: Option<Option<(String, String, String)>>)
    ensures
        match r {
            Some(Some(t)) => regex_first_split(pattern@, text@) == Some(Some((t.0@, t.1@, t.2@)))
                && t.0@ + t.1@ + t.2@ == text@,
            Some(None) => regex_first_split(pattern@, text@) == Some(None::<(Seq<char>, Seq<char>, Seq<char>)>),
            None => regex_first_split(pattern@, text@) is None,
        },
{
    let re = regex::Regex::new(pattern).ok()?;
    Some(re.find(text).map(|m| (text[..m.start()].to_string(), m.as_str().to_string(), text[m.end()..].to_string())))
}

/// `text` with every match of `pattern` replaced by the literal `replacement`
/// (`None` when the pattern does not compile).
pub uninterp spec fn regex_replaced_all(pattern: Seq<char>, text: Seq<char>, replacement: Seq<char>) -> Option<Seq<char>>;

/// Compiles `pattern` and calls `Regex::replace_all` with the replacement taken
/// literally (`regex::NoExpand`). The result is named, not described.
#[verifier::external_body]
pub(crate) fn regex_replace_all(pattern: &str, text: &str, replacement: &str) -> (r: Option<String>)
    ensures
        match r {
            Some(s) => regex_replaced_all(pattern@, text@, replacement@) == Some(s@),
            None => regex_replaced_all(pattern@, text@, replacement@) is None,
        },
{
    let re = regex::Regex::new(pattern).ok()?;
    Some(re.replace_all(text, regex::NoExpand(replacement)).to_string())
}

/// `text` with the first match of `pattern` replaced by `replacement`, where
/// `$1` and the like stand for capture groups (`None` when the pattern does not
/// compile).
pub uninterp spec fn regex_replaced_first(pattern: Seq<char>, text: Seq<char>, replacement: Seq<char>) -> Option<Seq<char>>;

/// Compiles `pattern` and calls `Regex::replace` with group references in
/// `replacement` expanded. The result is named, not described.
#[verifier::external_body]
pub(crate) fn regex_replace_first(pattern: &str, text: &str, replacement: &str) -> (r: Option<String>)
    ensures
        match r {
            Some(s) => regex_replaced_first(pattern@, text@, replacement@) == Some(s@),
            None => regex_replaced_first(pattern@, text@, replacement@) is None,
        },
{
    let re = regex::Regex::new(pattern).ok()?;
    Some(re.replace(text, replacement).to_string())
}

} // verus!
