//! The literal under the cursor in a TypeScript or JavaScript line: a run of
//! digits and dots, a quoted string (`'`, `"` or `` ` ``), or `true`, `false`
//! or `null` standing as a word.

use vstd::prelude::*;
use crate::edit::{CodeRange, range_on_line, make_range};
use crate::literals::{has_digit, has_digit_exec, next_char_from};
use crate::text::{
    is_digit, char_is_digit, unicode_alphanumeric, char_is_alphanumeric, occurs_at, matches_at,
    slice_chars, chars_to_string, str_chars,
};

verus! {

/// A character of a TypeScript number run: a digit or `.`.
pub open spec fn ts_number_char(c: char) -> bool {
    is_digit(c) || c == '.'
}

/// Start of the run of number characters that ends at `col`.
pub open spec fn ts_run_start(s: Seq<char>, col: int) -> int
    decreases col,
{
    if col <= 0 {
        0
    } else if !ts_number_char(s[col - 1]) {
        col
    } else {
        ts_run_start(s, col - 1)
    }
}

/// End of the run of number characters that starts at `i`.
pub open spec fn ts_run_end(s: Seq<char>, i: int) -> int
    decreases s.len() - i,
{
    if i >= s.len() {
        s.len() as int
    } else if !ts_number_char(s[i]) {
        i
    } else {
        ts_run_end(s, i + 1)
    }
}

/// The number under the cursor: the run of digits and dots around `col`,
/// when it holds a digit.
pub open spec fn ts_number_at(s: Seq<char>, col: int) -> Option<(int, int)> {
    let a = ts_run_start(s, col);
    let e = ts_run_end(s, col);
    if a < e && has_digit(s.subrange(a, e)) { Some((a, e)) } else { None }
}

/// A TypeScript quote character.
pub open spec fn ts_quote(c: char) -> bool {
    c == '"' || c == '\'' || c == '`'
}

/// The last quote character before `col`, if any.
pub open spec fn ts_last_quote_before(s: Seq<char>, col: int) -> Option<int>
    decreases col,
{
    if col <= 0 {
        None
    } else if ts_quote(s[col - 1]) {
        Some(col - 1)
    } else {
        ts_last_quote_before(s, col - 1)
    }
}

/// The string under the cursor: from the last quote before `col` to the
/// first same quote at or after `col`, both quotes included.
pub open spec fn ts_string_at(s: Seq<char>, col: int) -> Option<(int, int)> {
    match ts_last_quote_before(s, col) {
        Some(i) => match next_char_from(s, s[i], col) {
            Some(j) => Some((i, j + 1)),
            None => None,
        },
        None => None,
    }
}

/// `kw` stands at `start` with no letter or digit just before or after it.
pub open spec fn ts_keyword_at(s: Seq<char>, kw: Seq<char>, start: int) -> bool {
    &&& occurs_at(s, kw, start)
    &&& (start == 0 || !unicode_alphanumeric(s[start - 1]))
    &&& (start + kw.len() == s.len() || !unicode_alphanumeric(s[start + kw.len()]))
}

/// The first start in `lo..=hi` where `kw` stands as a word.
pub open spec fn ts_keyword_search(s: Seq<char>, kw: Seq<char>, lo: int, hi: int) -> Option<int>
    decreases hi - lo + 1,
{
    if lo > hi {
        None
    } else if ts_keyword_at(s, kw, lo) {
        Some(lo)
    } else {
        ts_keyword_search(s, kw, lo + 1, hi)
    }
}

/// Where `kw` under the cursor starts: the first word occurrence starting
/// between `kw.len()` characters before `col` and `col`.
pub open spec fn ts_keyword_near(s: Seq<char>, kw: Seq<char>, col: int) -> Option<int> {
    ts_keyword_search(s, kw, if col >= kw.len() { col - kw.len() } else { 0 }, col)
}

/// The literal under the cursor at `col` of a line, with its span on line 0:
/// a number first, then a string, then `true`, `false` or `null`.
pub open spec fn ts_literal_at(s: Seq<char>, col: int) -> Option<(Seq<char>, CodeRange)> {
    match ts_number_at(s, col) {
        Some((a, e)) => Some((s.subrange(a, e), range_on_line(0, a, e))),
        None => match ts_string_at(s, col) {
            Some((a, e)) => Some((s.subrange(a, e), range_on_line(0, a, e))),
            None => match ts_keyword_near(s, "true"@, col) {
                Some(st) => Some(("true"@, range_on_line(0, st, st + 4))),
                None => match ts_keyword_near(s, "false"@, col) {
                    Some(st) => Some(("false"@, range_on_line(0, st, st + 5))),
                    None => match ts_keyword_near(s, "null"@, col) {
                        Some(st) => Some(("null"@, range_on_line(0, st, st + 4))),
                        None => None,
                    },
                },
            },
        },
    }
}

proof fn lemma_ts_run_start(s: Seq<char>, col: int, i: int)
    requires
        0 <= i <= col <= s.len(),
        forall|j: int| i <= j < col ==> ts_number_char(#[trigger] s[j]),
        i == 0 || !ts_number_char(s[i - 1]),
    ensures
        ts_run_start(s, col) == i,
    decreases col,
{
    if col > i {
        lemma_ts_run_start(s, col - 1, i);
    }
}

proof fn lemma_ts_run_end(s: Seq<char>, i: int, e: int)
    requires
        0 <= i <= e <= s.len(),
        forall|j: int| i <= j < e ==> ts_number_char(#[trigger] s[j]),
        e == s.len() || !ts_number_char(s[e]),
    ensures
        ts_run_end(s, i) == e,
    decreases e - i,
{
    if i < e {
        lemma_ts_run_end(s, i + 1, e);
    }
}

fn is_ts_number_char(c: char) -> (r: bool)
    ensures
        r == ts_number_char(c),
{
    char_is_digit(c) || c == '.'
}

/// Finds the number under the cursor.
pub fn find_ts_number(line: &Vec<char>, col: usize) -> (r: Option<(usize, usize)>)
    requires
        col <= line@.len(),
    ensures
        match r {
            Some((a, e)) => ts_number_at(line@, col as int) == Some((a as int, e as int)) && a < e <= line@.len(),
            None => ts_number_at(line@, col as int) is None,
        },
{
    let n = line.len();
    let mut a: usize = col;
    while a > 0 && is_ts_number_char(line[a - 1])
        invariant
            a <= col <= n,
            n == line@.len(),
            forall|j: int| a <= j < col ==> ts_number_char(#[trigger] line@[j]),
        decreases a,
    {
        a = a - 1;
    }
    proof {
        lemma_ts_run_start(line@, col as int, a as int);
    }
    let mut e: usize = col;
    while e < n && is_ts_number_char(line[e])
        invariant
            col <= e <= n,
            n == line@.len(),
            forall|j: int| col <= j < e ==> ts_number_char(#[trigger] line@[j]),
        decreases n - e,
    {
        e = e + 1;
    }
    proof {
        lemma_ts_run_end(line@, col as int, e as int);
    }
    if a < e {
        let text = slice_chars(line, a, e);
        if has_digit_exec(&text) {
            return Some((a, e));
        }
    }
    None
}

fn is_ts_quote(c: char) -> (r: bool)
    ensures
        r == ts_quote(c),
{
    c == '"' || c == '\'' || c == '`'
}

/// Finds the string under the cursor.
pub fn find_ts_string(line: &Vec<char>, col: usize) -> (r: Option<(usize, usize)>)
    requires
        col <= line@.len(),
    ensures
        match r {
            Some((a, e)) => ts_string_at(line@, col as int) == Some((a as int, e as int)) && a < e <= line@.len(),
            None => ts_string_at(line@, col as int) is None,
        },
{
    let n = line.len();
    let mut i: usize = col;
    while i > 0 && !is_ts_quote(line[i - 1])
        invariant
            i <= col <= n,
            n == line@.len(),
            ts_last_quote_before(line@, col as int) == ts_last_quote_before(line@, i as int),
        decreases i,
    {
        i = i - 1;
    }
    if i == 0 {
        return None;
    }
    assert(ts_last_quote_before(line@, i as int) == Some((i - 1) as int));
    let q = line[i - 1];
    let mut j: usize = col;
    while j < n
        invariant
            col <= j <= n,
            n == line@.len(),
            1 <= i <= col,
            q == line@[i - 1],
            ts_last_quote_before(line@, col as int) == Some((i - 1) as int),
            next_char_from(line@, q, col as int) == next_char_from(line@, q, j as int),
        decreases n - j,
    {
        if line[j] == q {
            return Some((i - 1, j + 1));
        }
        j = j + 1;
    }
    None
}

fn is_ts_keyword_at(s: &Vec<char>, kw: &Vec<char>, start: usize) -> (r: bool)
    ensures
        r == ts_keyword_at(s@, kw@, start as int),
{
    if !matches_at(s, kw, start) {
        return false;
    }
    let k = kw.len();
    let n = s.len();
    assert(start + k <= n);
    let end = start + k;
    let before_ok = start == 0 || !char_is_alphanumeric(s[start - 1]);
    let after_ok = end == n || !char_is_alphanumeric(s[end]);
    before_ok && after_ok
}

/// Finds where `kw` under the cursor starts.
pub fn find_ts_keyword(s: &Vec<char>, kw: &str, col: usize) -> (r: Option<usize>)
    requires
        col <= s@.len(),
    ensures
        match r {
            Some(st) => ts_keyword_near(s@, kw@, col as int) == Some(st as int) && st + kw@.len() <= s@.len(),
            None => ts_keyword_near(s@, kw@, col as int) is None,
        },
{
    let kwc = str_chars(kw);
    let lo: usize = if col >= kwc.len() { col - kwc.len() } else { 0 };
    let mut st: usize = lo;
    while st <= col
        invariant
            lo <= st <= col + 1,
            col <= s@.len(),
            kwc@ == kw@,
            lo == (if col >= kw@.len() { col - kw@.len() } else { 0 }),
            ts_keyword_near(s@, kw@, col as int) == ts_keyword_search(s@, kw@, st as int, col as int),
        decreases col + 1 - st,
    {
        if is_ts_keyword_at(s, &kwc, st) {
            return Some(st);
        }
        if st == col {
            assert(ts_keyword_search(s@, kw@, st + 1, col as int) is None);
            return None;
        }
        st = st + 1;
    }
    None
}

/// Finds the literal under the cursor at `col` of a line.
pub fn find_ts_literal(line: &Vec<char>, col: usize) -> (r: Option<(String, CodeRange)>)
    requires
        col <= line@.len(),
    ensures
        match r {
            Some((t, rg)) => ts_literal_at(line@, col as int) == Some((t@, rg)),
            None => ts_literal_at(line@, col as int) is None,
        },
{
    proof {
        reveal_strlit("true");
        reveal_strlit("false");
        reveal_strlit("null");
    }
    assert("true"@.len() == 4);
    assert("false"@.len() == 5);
    assert("null"@.len() == 4);
    let n = line.len();
    match find_ts_number(line, col) {
        Some((a, e)) => {
            let t = slice_chars(line, a, e);
            return Some((chars_to_string(&t), make_range(0, a, e)));
        },
        None => {},
    }
    match find_ts_string(line, col) {
        Some((a, e)) => {
            let t = slice_chars(line, a, e);
            return Some((chars_to_string(&t), make_range(0, a, e)));
        },
        None => {},
    }
    match find_ts_keyword(line, "true", col) {
        Some(st) => {
            assert(st + 4 <= n);
            return Some((chars_to_string(&str_chars("true")), make_range(0, st, st + 4)));
        },
        None => {},
    }
    match find_ts_keyword(line, "false", col) {
        Some(st) => {
            assert(st + 5 <= n);
            return Some((chars_to_string(&str_chars("false")), make_range(0, st, st + 5)));
        },
        None => {},
    }
    match find_ts_keyword(line, "null", col) {
        Some(st) => Some((chars_to_string(&str_chars("null")), make_range(0, st, st + 4))),
        None => None,
    }
}

/// A literal found under the cursor is never empty.
pub proof fn lemma_ts_literal_nonempty(s: Seq<char>, col: int)
    ensures
        ts_literal_at(s, col) matches Some((lit, _)) ==> lit.len() > 0,
{
    reveal_strlit("true");
    reveal_strlit("false");
    reveal_strlit("null");
    if ts_number_at(s, col) is None {
        if let Some(i) = ts_last_quote_before(s, col) {
            lemma_last_quote_below(s, col);
            if let Some(j) = next_char_from(s, s[i], col) {
                lemma_next_char_at_least(s, s[i], col);
            }
        }
    }
}

proof fn lemma_last_quote_below(s: Seq<char>, col: int)
    ensures
        ts_last_quote_before(s, col) matches Some(i) ==> 0 <= i < col,
    decreases col,
{
    if col > 0 {
        lemma_last_quote_below(s, col - 1);
    }
}

proof fn lemma_next_char_at_least(s: Seq<char>, c: char, from: int)
    ensures
        next_char_from(s, c, from) matches Some(j) ==> from <= j < s.len(),
    decreases s.len() - from,
{
    if 0 <= from < s.len() && s[from] != c {
        lemma_next_char_at_least(s, c, from + 1);
    }
}

} // verus!
