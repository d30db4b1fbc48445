//! Rewriting of path-like string literals in Python source when a file or
//! directory is renamed.

use vstd::prelude::*;
use crate::paths::{path_file_name_of, path_file_name};
use crate::regex_support::{regex_match_contexts, regex_captures_in_context};
use crate::text::{
    str_chars, chars_to_string, has_prefix, has_suffix, contains_seq, contains_char, starts_with_str,
    ends_with_str, starts_with, contains, contains_ch, chars_eq, append_str, append_chars, slice_chars,
    replace_all, replace_all_chars, replace_first, replace_first_chars,
};

verus! {

/// A file extension that marks a string as a path.
pub open spec fn path_extension(s: Seq<char>) -> bool {
    ||| has_suffix(s, ".py"@)
    ||| has_suffix(s, ".pyi"@)
    ||| has_suffix(s, ".json"@)
    ||| has_suffix(s, ".yaml"@)
    ||| has_suffix(s, ".yml"@)
    ||| has_suffix(s, ".txt"@)
    ||| has_suffix(s, ".md"@)
    ||| has_suffix(s, ".toml"@)
    ||| has_suffix(s, ".ini"@)
    ||| has_suffix(s, ".cfg"@)
    ||| has_suffix(s, ".conf"@)
    ||| has_suffix(s, ".html"@)
    ||| has_suffix(s, ".css"@)
    ||| has_suffix(s, ".svg"@)
    ||| has_suffix(s, ".png"@)
    ||| has_suffix(s, ".jpg"@)
}

/// A string looks like a path: it holds a `/` or `\`, or a `.` and ends in a
/// known file extension.
pub open spec fn path_like(s: Seq<char>) -> bool {
    contains_char(s, '/') || contains_char(s, '\\') || (contains_char(s, '.') && path_extension(s))
}

/// The extensions that mark a string holding a `.` as a path.
pub open spec fn path_extensions() -> Seq<Seq<char>> {
    seq![".py"@, ".pyi"@, ".json"@, ".yaml"@, ".yml"@, ".txt"@, ".md"@, ".toml"@, ".ini"@, ".cfg"@, ".conf"@, ".html"@, ".css"@, ".svg"@, ".png"@, ".jpg"@]
}

/// A string holding a `/` or a `\` is path-like, and so is one holding a
/// `.` that ends with one of the extensions `.py`, `.pyi`, `.json`, `.yaml`,
/// `.yml`, `.txt`, `.md`, `.toml`, `.ini`, `.cfg`, `.conf`, `.html`, `.css`,
/// `.svg`, `.png` or `.jpg`; no other string is.
pub proof fn law_path_like_strings(s: Seq<char>, ext: Seq<char>)
    requires
        ext == ".py"@ || ext == ".pyi"@ || ext == ".json"@ || ext == ".yaml"@ || ext == ".yml"@ || ext == ".txt"@ || ext == ".md"@ || ext == ".toml"@ || ext == ".ini"@ || ext == ".cfg"@ || ext == ".conf"@ || ext == ".html"@ || ext == ".css"@ || ext == ".svg"@ || ext == ".png"@ || ext == ".jpg"@,
    ensures
        contains_char(s, '/') ==> path_like(s),
        contains_char(s, '\\') ==> path_like(s),
        contains_char(s, '.') && ext.len() <= s.len() && s.subrange(s.len() - ext.len(), s.len() as int) == ext
            ==> path_like(s),
        !contains_char(s, '/') && !contains_char(s, '\\') && !contains_char(s, '.') ==> !path_like(s),
        path_like(s) ==> contains_char(s, '/') || contains_char(s, '\\') || (contains_char(s, '.')
            && exists|k: int| 0 <= k < 16 && path_extensions()[k].len() <= s.len()
                && s.subrange(s.len() - path_extensions()[k].len(), s.len() as int) == #[trigger] path_extensions()[k]),
{
    let known = path_extensions();
    if has_suffix(s, ".py"@) {
        assert(known[0] == ".py"@);
    }
    if has_suffix(s, ".pyi"@) {
        assert(known[1] == ".pyi"@);
    }
    if has_suffix(s, ".json"@) {
        assert(known[2] == ".json"@);
    }
    if has_suffix(s, ".yaml"@) {
        assert(known[3] == ".yaml"@);
    }
    if has_suffix(s, ".yml"@) {
        assert(known[4] == ".yml"@);
    }
    if has_suffix(s, ".txt"@) {
        assert(known[5] == ".txt"@);
    }
    if has_suffix(s, ".md"@) {
        assert(known[6] == ".md"@);
    }
    if has_suffix(s, ".toml"@) {
        assert(known[7] == ".toml"@);
    }
    if has_suffix(s, ".ini"@) {
        assert(known[8] == ".ini"@);
    }
    if has_suffix(s, ".cfg"@) {
        assert(known[9] == ".cfg"@);
    }
    if has_suffix(s, ".conf"@) {
        assert(known[10] == ".conf"@);
    }
    if has_suffix(s, ".html"@) {
        assert(known[11] == ".html"@);
    }
    if has_suffix(s, ".css"@) {
        assert(known[12] == ".css"@);
    }
    if has_suffix(s, ".svg"@) {
        assert(known[13] == ".svg"@);
    }
    if has_suffix(s, ".png"@) {
        assert(known[14] == ".png"@);
    }
    if has_suffix(s, ".jpg"@) {
        assert(known[15] == ".jpg"@);
    }
}

/// Checks whether a string literal's content looks like a path.
pub fn is_path_like(s: &str) -> (r: bool)
    ensures
        r == path_like(s@),
{
    let c = str_chars(s);
    if contains_ch(&c, '/') || contains_ch(&c, '\\') {
        return true;
    }
    if !contains_ch(&c, '.') {
        return false;
    }
    ends_with_str(&c, ".py") || ends_with_str(&c, ".pyi") || ends_with_str(&c, ".json")
        || ends_with_str(&c, ".yaml") || ends_with_str(&c, ".yml") || ends_with_str(&c, ".txt")
        || ends_with_str(&c, ".md") || ends_with_str(&c, ".toml") || ends_with_str(&c, ".ini")
        || ends_with_str(&c, ".cfg") || ends_with_str(&c, ".conf") || ends_with_str(&c, ".html")
        || ends_with_str(&c, ".css") || ends_with_str(&c, ".svg") || ends_with_str(&c, ".png")
        || ends_with_str(&c, ".jpg")
}

/// A double-quoted string literal; group 1 is its content.
pub const STRING_LITERAL_DOUBLE: &'static str = "\"([^\"\\\\]*(\\\\.[^\"\\\\]*)*)\"";

/// A single-quoted string literal; group 1 is its content.
pub const STRING_LITERAL_SINGLE: &'static str = "'([^'\\\\]*(\\\\.[^'\\\\]*)*)'";

/// A double-quoted f-string without interpolation; group 1 is its content.
pub const FSTRING_DOUBLE: &'static str = "f\"([^\"\\\\{]*(\\\\.[^\"\\\\{]*)*)\"";

/// A single-quoted f-string without interpolation; group 1 is its content.
pub const FSTRING_SINGLE: &'static str = "f'([^'\\\\{]*(\\\\.[^'\\\\{]*)*)'";

/// A character that, just before a quote, makes the literal an f-, r- or b-string.
pub open spec fn string_prefix_char(c: char) -> bool {
    c == 'f' || c == 'r' || c == 'b' || c == 'F' || c == 'R' || c == 'B'
}

/// `s` without its leading `../` and `..\` steps.
pub open spec fn strip_parent_steps(s: Seq<char>) -> Seq<char>
    decreases s.len(),
{
    if s.len() >= 3 && (has_prefix(s, "../"@) || has_prefix(s, "..\\"@)) {
        strip_parent_steps(s.subrange(3, s.len() as int))
    } else {
        s
    }
}

/// What a rename asks for: the old and new paths and their final components.
pub struct RenameTexts {
    pub old_path: Seq<char>,
    pub new_path: Seq<char>,
    pub old_name: Seq<char>,
    pub new_name: Seq<char>,
}

/// The rename texts of `old_path` -> `new_path`: a path without a final
/// component has the empty name (old) or keeps the whole path (new).
pub open spec fn rename_texts(old_path: Seq<char>, new_path: Seq<char>) -> RenameTexts {
    RenameTexts {
        old_path,
        new_path,
        old_name: match path_file_name_of(old_path) {
            Some(n) => n,
            None => Seq::empty(),
        },
        new_name: match path_file_name_of(new_path) {
            Some(n) => n,
            None => new_path,
        },
    }
}

/// The new path lies inside the old one.
pub open spec fn nested_rename(t: RenameTexts) -> bool {
    has_prefix(t.new_path, t.old_path + "/"@)
}

/// The content refers to the renamed path, directly or by its final name.
pub open spec fn refers_to_old(content: Seq<char>, t: RenameTexts) -> bool {
    ||| content == t.old_path
    ||| has_prefix(content, t.old_path + "/"@)
    ||| has_prefix(content, t.old_path + "\\"@)
    ||| (t.old_name.len() > 0 && {
        let n = strip_parent_steps(content);
        n == t.old_name || has_prefix(n, t.old_name + "/"@) || has_prefix(n, t.old_name + "\\"@)
    })
}

/// The new content of a path-like string literal, or `None` when it stays.
pub open spec fn rewritten_content(content: Seq<char>, t: RenameTexts) -> Option<Seq<char>> {
    if !path_like(content) {
        None
    } else if nested_rename(t) && contains_seq(content, t.new_path) {
        None
    } else if !refers_to_old(content, t) {
        None
    } else if content == t.old_path || has_prefix(content, t.old_path + "/"@) {
        Some(replace_first(content, t.old_path, t.new_path))
    } else if t.old_name.len() > 0 {
        Some(replace_first(content, t.old_name, if nested_rename(t) { t.new_path } else { t.new_name }))
    } else {
        Some(content)
    }
}

/// The literal text that replaces a rewritten one.
pub open spec fn requoted(content: Seq<char>, quote: char, fstring: bool) -> Seq<char> {
    if fstring {
        seq!['f', quote] + content + seq![quote]
    } else {
        seq![quote] + content + seq![quote]
    }
}

/// The match (text before it, the literal) touches a triple-quote delimiter
/// in `source`: its quote is preceded, or its closing quote followed, by the
/// same quote character.
pub open spec fn touches_triple_quote(source: Seq<char>, m: (Seq<char>, Seq<char>, Seq<char>), quote: char) -> bool {
    let end = m.0.len() + m.1.len();
    ||| (m.0.len() > 0 && m.0.last() == quote)
    ||| (end < source.len() && source[end as int] == quote)
}

/// One match (text before it, the literal, its content) of `source` applied
/// to the source rewritten so far and the count of rewrites. Literals that
/// are part of a triple-quoted string, and plain matches that are really
/// prefixed (f, r or b) strings, are left alone.
pub open spec fn rewrite_step(
    source: Seq<char>,
    state: (Seq<char>, nat),
    m: (Seq<char>, Seq<char>, Seq<char>),
    quote: char,
    fstring: bool,
    t: RenameTexts,
) -> (Seq<char>, nat) {
    if !fstring && m.0.len() > 0 && string_prefix_char(m.0.last()) {
        state
    } else if touches_triple_quote(source, m, quote) {
        state
    } else {
        match rewritten_content(m.2, t) {
            Some(c) => (
                replace_all(state.0, m.1, requoted(c, quote, fstring)),
                if state.1 < usize::MAX { (state.1 + 1) as nat } else { state.1 },
            ),
            None => state,
        }
    }
}

/// The matches `ms` of `source` applied in order.
pub open spec fn rewrite_all(
    source: Seq<char>,
    state: (Seq<char>, nat),
    ms: Seq<(Seq<char>, Seq<char>, Seq<char>)>,
    quote: char,
    fstring: bool,
    t: RenameTexts,
) -> (Seq<char>, nat)
    decreases ms.len(),
{
    if ms.len() == 0 {
        state
    } else {
        rewrite_step(source, rewrite_all(source, state, ms.drop_last(), quote, fstring, t), ms.last(), quote, fstring, t)
    }
}

/// The four literal forms in the order they are processed.
pub open spec fn literal_forms() -> Seq<(Seq<char>, char, bool)> {
    seq![
        (STRING_LITERAL_DOUBLE@, '"', false),
        (STRING_LITERAL_SINGLE@, '\'', false),
        (FSTRING_DOUBLE@, '"', true),
        (FSTRING_SINGLE@, '\'', true),
    ]
}

/// The rewritten source and count after the first `k` literal forms, or
/// `None` when one of their patterns does not compile.
pub open spec fn rewrite_forms(source: Seq<char>, t: RenameTexts, k: int) -> Option<(Seq<char>, nat)>
    decreases k,
{
    if k <= 0 {
        Some((source, 0))
    } else {
        match rewrite_forms(source, t, k - 1) {
            None => None,
            Some(state) => {
                let f = literal_forms()[k - 1];
                match regex_match_contexts(f.0, source) {
                    None => None,
                    Some(ms) => Some(rewrite_all(source, state, ms, f.1, f.2, t)),
                }
            },
        }
    }
}

proof fn lemma_rewrite_forms_stays_none(source: Seq<char>, t: RenameTexts, k: int, j: int)
    requires
        0 <= k <= j,
        rewrite_forms(source, t, k) is None,
    ensures
        rewrite_forms(source, t, j) is None,
    decreases j - k,
{
    if j > k {
        lemma_rewrite_forms_stays_none(source, t, k, j - 1);
    }
}

fn rewrite_one_form(
    source: &str,
    pattern: &str,
    quote: char,
    fstring: bool,
    old_path: &Vec<char>,
    new_path: &Vec<char>,
    old_name: &Vec<char>,
    new_name: &Vec<char>,
    state: (Vec<char>, usize),
) -> (r: Option<(Vec<char>, usize)>)
    ensures
        ({
            let t = RenameTexts { old_path: old_path@, new_path: new_path@, old_name: old_name@, new_name: new_name@ };
            match regex_match_contexts(pattern@, source@) {
                None => r is None,
                Some(ms) => r matches Some(s) && (s.0@, s.1 as nat) == rewrite_all(source@, (state.0@, state.1 as nat), ms, quote, fstring, t),
            }
        }),
{
    let ghost t = RenameTexts { old_path: old_path@, new_path: new_path@, old_name: old_name@, new_name: new_name@ };
    let ms = match regex_captures_in_context(pattern, source) {
        Some(v) => v,
        None => {
            return None;
        },
    };
    let ghost msv = ms@.map_values(|m: (String, String, String)| (m.0@, m.1@, m.2@));
    let (mut out, mut count) = state;
    let ghost st0 = (out@, count as nat);
    let mut sep_old: Vec<char> = slice_chars(old_path, 0, old_path.len());
    sep_old.push('/');
    let mut bsep_old: Vec<char> = slice_chars(old_path, 0, old_path.len());
    bsep_old.push('\\');
    proof {
        reveal_strlit("/");
        reveal_strlit("\\");
        assert(sep_old@ =~= old_path@ + "/"@);
        assert(bsep_old@ =~= old_path@ + "\\"@);
    }
    let nested = starts_with(new_path, &sep_old);
    let src = str_chars(source);
    let mut i: usize = 0;
    while i < ms.len()
        invariant
            i <= ms@.len(),
            msv == ms@.map_values(|m: (String, String, String)| (m.0@, m.1@, m.2@)),
            (out@, count as nat) == rewrite_all(source@, st0, msv.subrange(0, i as int), quote, fstring, t),
            src@ == source@,
            forall|k: int| 0 <= k < ms@.len() ==> {
                let u = #[trigger] ms@[k];
                &&& u.0@.len() + u.1@.len() <= source@.len()
                &&& source@.subrange(0, (u.0@.len() + u.1@.len()) as int) == u.0@ + u.1@
            },
            t == (RenameTexts { old_path: old_path@, new_path: new_path@, old_name: old_name@, new_name: new_name@ }),
            sep_old@ == old_path@ + "/"@,
            bsep_old@ == old_path@ + "\\"@,
            nested == nested_rename(t),
        decreases ms@.len() - i,
    {
        let ghost pre = msv.subrange(0, i as int);
        assert(msv.subrange(0, i + 1).drop_last() =~= pre);
        assert(msv.subrange(0, i + 1).last() == msv[i as int]);
        let m = &ms[i];
        assert(msv[i as int] == (m.0@, m.1@, m.2@));
        let prefix = str_chars(m.0.as_str());
        let full = str_chars(m.1.as_str());
        let content = str_chars(m.2.as_str());
        let skip_prefixed = !fstring && prefix.len() > 0 && {
            let c = prefix[prefix.len() - 1];
            c == 'f' || c == 'r' || c == 'b' || c == 'F' || c == 'R' || c == 'B'
        };
        assert(m.0@.len() + m.1@.len() <= source@.len()) by {
            let u = ms@[i as int];
        }
        let n = src.len();
        assert(prefix@.len() + full@.len() <= n);
        let end = prefix.len() + full.len();
        let triple = (prefix.len() > 0 && prefix[prefix.len() - 1] == quote) || (end < src.len() && src[end] == quote);
        if !skip_prefixed && !triple {
            match rewrite_content(&content, old_path, new_path, old_name, new_name, &sep_old, &bsep_old, nested) {
                Some(c) => {
                    let mut lit: Vec<char> = Vec::new();
                    if fstring {
                        lit.push('f');
                    }
                    lit.push(quote);
                    append_chars(&mut lit, &c);
                    lit.push(quote);
                    assert(lit@ =~= requoted(c@, quote, fstring));
                    out = replace_all_chars(&out, &full, &lit);
                    count = count.saturating_add(1);
                },
                None => {},
            }
        }
        i = i + 1;
    }
    assert(msv.subrange(0, ms@.len() as int) =~= msv);
    Some((out, count))
}

fn strip_parents(s: &Vec<char>) -> (r: Vec<char>)
    ensures
        r@ == strip_parent_steps(s@),
{
    let mut cur = slice_chars(s, 0, s.len());
    assert(cur@ =~= s@);
    while cur.len() >= 3 && (starts_with_str(&cur, "../") || starts_with_str(&cur, "..\\"))
        invariant
            strip_parent_steps(cur@) == strip_parent_steps(s@),
        decreases cur@.len(),
    {
        cur = slice_chars(&cur, 3, cur.len());
    }
    cur
}

fn starts_with_then(s: &Vec<char>, p: &Vec<char>, c: char) -> (r: bool)
    ensures
        r == has_prefix(s@, p@.push(c)),
{
    let mut q = p.clone();
    q.push(c);
    starts_with(s, &q)
}

fn rewrite_content(
    content: &Vec<char>,
    old_path: &Vec<char>,
    new_path: &Vec<char>,
    old_name: &Vec<char>,
    new_name: &Vec<char>,
    sep_old: &Vec<char>,
    bsep_old: &Vec<char>,
    nested: bool,
) -> (r: Option<Vec<char>>)
    requires
        sep_old@ == old_path@ + "/"@,
        bsep_old@ == old_path@ + "\\"@,
        nested == nested_rename(RenameTexts { old_path: old_path@, new_path: new_path@, old_name: old_name@, new_name: new_name@ }),
    ensures
        ({
            let t = RenameTexts { old_path: old_path@, new_path: new_path@, old_name: old_name@, new_name: new_name@ };
            match rewritten_content(content@, t) {
                Some(c) => r matches Some(x) && x@ == c,
                None => r is None,
            }
        }),
{
    let text = chars_to_string(content);
    if !is_path_like(text.as_str()) {
        return None;
    }
    if nested && contains(content, new_path) {
        return None;
    }
    let direct = chars_eq(content, old_path) || starts_with(content, sep_old);
    let refers = direct || starts_with(content, bsep_old) || (old_name.len() > 0 && {
        let n = strip_parents(content);
        chars_eq(&n, old_name) || starts_with_then(&n, old_name, '/') || starts_with_then(&n, old_name, '\\')
    });
    proof {
        reveal_strlit("/");
        reveal_strlit("\\");
        assert(old_path@ + "/"@ =~= old_path@.push('/'));
        assert(old_name@ + "/"@ =~= old_name@.push('/'));
        assert(old_name@ + "\\"@ =~= old_name@.push('\\'));
    }
    if !refers {
        return None;
    }
    if direct {
        return Some(replace_first_chars(content, old_path, new_path));
    }
    if old_name.len() > 0 {
        if nested {
            return Some(replace_first_chars(content, old_name, new_path));
        }
        return Some(replace_first_chars(content, old_name, new_name));
    }
    Some(slice_chars(content, 0, content.len()))
}

/// Rewrites the path-like string literals of `source` that refer to
/// `old_path` so they refer to `new_path`, returning the new source and the
/// number of literals rewritten. Triple-quoted strings (a match touching a
/// triple-quote delimiter) and f-strings with interpolation are left alone.
pub fn rewrite_string_literals(source: &str, old_path: &str, new_path: &str) -> (r: Result<(String, usize), String>)
    ensures
        match rewrite_forms(source@, rename_texts(old_path@, new_path@), 4) {
            Some((s, n)) => r matches Ok((out, count)) && out@ == s && count as nat == n,
            None => r matches Err(m) && m@ == "invalid string literal pattern"@,
        },
{
    let ghost t = rename_texts(old_path@, new_path@);
    let op = str_chars(old_path);
    let np = str_chars(new_path);
    let on: Vec<char> = match path_file_name(old_path) {
        Some(n) => str_chars(n.as_str()),
        None => Vec::new(),
    };
    let nn: Vec<char> = match path_file_name(new_path) {
        Some(n) => str_chars(n.as_str()),
        None => str_chars(new_path),
    };
    assert(t == (RenameTexts { old_path: op@, new_path: np@, old_name: on@, new_name: nn@ }));
    let err = "invalid string literal pattern";
    let s0 = (str_chars(source), 0usize);
    assert(rewrite_forms(source@, t, 0) == Some((source@, 0nat)));
    assert(literal_forms()[0] == (STRING_LITERAL_DOUBLE@, '"', false));
    let s1 = match rewrite_one_form(source, STRING_LITERAL_DOUBLE, '"', false, &op, &np, &on, &nn, s0) {
        Some(s) => s,
        None => {
            proof {
                lemma_rewrite_forms_stays_none(source@, t, 1, 4);
            }
            return Err(chars_to_string(&str_chars(err)));
        },
    };
    assert(rewrite_forms(source@, t, 1) == Some((s1.0@, s1.1 as nat)));
    assert(literal_forms()[1] == (STRING_LITERAL_SINGLE@, '\'', false));
    let s2 = match rewrite_one_form(source, STRING_LITERAL_SINGLE, '\'', false, &op, &np, &on, &nn, s1) {
        Some(s) => s,
        None => {
            proof {
                lemma_rewrite_forms_stays_none(source@, t, 2, 4);
            }
            return Err(chars_to_string(&str_chars(err)));
        },
    };
    assert(rewrite_forms(source@, t, 2) == Some((s2.0@, s2.1 as nat)));
    assert(literal_forms()[2] == (FSTRING_DOUBLE@, '"', true));
    let s3 = match rewrite_one_form(source, FSTRING_DOUBLE, '"', true, &op, &np, &on, &nn, s2) {
        Some(s) => s,
        None => {
            proof {
                lemma_rewrite_forms_stays_none(source@, t, 3, 4);
            }
            return Err(chars_to_string(&str_chars(err)));
        },
    };
    assert(rewrite_forms(source@, t, 3) == Some((s3.0@, s3.1 as nat)));
    assert(literal_forms()[3] == (FSTRING_SINGLE@, '\'', true));
    let s4 = match rewrite_one_form(source, FSTRING_SINGLE, '\'', true, &op, &np, &on, &nn, s3) {
        Some(s) => s,
        None => {
            proof {
                lemma_rewrite_forms_stays_none(source@, t, 4, 4);
            }
            return Err(chars_to_string(&str_chars(err)));
        },
    };
    assert(rewrite_forms(source@, t, 4) == Some((s4.0@, s4.1 as nat)));
    Ok((chars_to_string(&s4.0), s4.1))
}


/// When the new path lies inside the old one, a literal that already names the
/// new path is left as it is, so renaming twice changes nothing more.
pub proof fn law_nested_rename_skips_updated(content: Seq<char>, t: RenameTexts)
    requires
        nested_rename(t),
        contains_seq(content, t.new_path),
    ensures
        rewritten_content(content, t) is None,
{
}

/// A literal that does not look like a path is never rewritten.
pub proof fn law_non_paths_untouched(content: Seq<char>, t: RenameTexts)
    requires
        !path_like(content),
    ensures
        rewritten_content(content, t) is None,
{
}


proof fn lemma_rewrite_all_count(
    source: Seq<char>,
    state: (Seq<char>, nat),
    ms: Seq<(Seq<char>, Seq<char>, Seq<char>)>,
    quote: char,
    fstring: bool,
    t: RenameTexts,
)
    ensures
        rewrite_all(source, state, ms, quote, fstring, t).1 >= state.1,
        rewrite_all(source, state, ms, quote, fstring, t).1 == state.1 && state.1 < usize::MAX
            ==> rewrite_all(source, state, ms, quote, fstring, t).0 == state.0,
    decreases ms.len(),
{
    if ms.len() > 0 {
        lemma_rewrite_all_count(source, state, ms.drop_last(), quote, fstring, t);
    }
}

proof fn lemma_rewrite_forms_count(source: Seq<char>, t: RenameTexts, k: int)
    ensures
        rewrite_forms(source, t, k) matches Some((s, n)) ==> (n == 0 ==> s == source),
    decreases k,
{
    if k > 0 {
        lemma_rewrite_forms_count(source, t, k - 1);
        match rewrite_forms(source, t, k - 1) {
            None => {},
            Some(state) => {
                let f = literal_forms()[k - 1];
                match regex_match_contexts(f.0, source) {
                    None => {},
                    Some(ms) => {
                        lemma_rewrite_all_count(source, state, ms, f.1, f.2, t);
                    },
                }
            },
        }
    }
}

/// When no literal was rewritten, the source comes back unchanged.
pub proof fn law_zero_rewrites_keep_source(source: Seq<char>, old_path: Seq<char>, new_path: Seq<char>)
    ensures
        rewrite_forms(source, rename_texts(old_path, new_path), 4) matches Some((s, n)) ==> (n == 0 ==> s == source),
{
    lemma_rewrite_forms_count(source, rename_texts(old_path, new_path), 4);
}

} // verus!
