//! Finding literal values in source lines and all places where the same
//! literal occurs, for the extract-constant refactoring of C, Python and Rust.

use vstd::prelude::*;
use crate::numeric::{float_syntax, is_float_syntax};
use crate::text::{unicode_alphanumeric, char_is_alphanumeric, is_hex_digit, char_is_hex_digit, has_prefix, starts_with, contains_char, contains_ch, first_occurrence_from, is_digit, char_is_digit, is_word_char, char_is_word, slice_chars, chars_to_string, str_chars, split_lines, vv, lines_of, occurs_at, first_occurrence, count_char, count_char_before, find_str, matches_at, lemma_first_occurrence_some};
use crate::edit::{CodeRange, range_on_line, make_range};

verus! {

/// The comment and string conventions used to rule out occurrences.
#[derive(Debug, Clone, Copy, PartialEq, Eq, Structural)]
pub enum LiteralSyntax {
    /// `"..."` strings, `//` and `/* */` comments.
    C,
    /// `"..."` and `'...'` strings, `#` comments.
    Python,
    /// `"..."` strings, `//` comments.
    Rust,
    /// `"..."`, `'...'` and `` `...` `` strings, `//` comments.
    TypeScript,
}

/// `pos` lies after the first occurrence of `marker` in `line`.
pub open spec fn after_marker(line: Seq<char>, marker: Seq<char>, pos: int) -> bool {
    match first_occurrence(line, marker) {
        Some(m) => pos > m,
        None => false,
    }
}

/// `pos` is inside a `/* ... */` comment as the C scanner judges it: after the
/// first `/*` and either before the first `*/` or with no `*/` on the line.
pub open spec fn in_block_comment(line: Seq<char>, pos: int) -> bool {
    match first_occurrence(line, "/*"@) {
        Some(cs) => pos > cs && match first_occurrence(line, "*/"@) {
            Some(ce) => pos < ce,
            None => true,
        },
        None => false,
    }
}

/// A literal at `pos` is outside strings and comments: an even number of quote
/// characters precede it and it does not follow a comment marker.
pub open spec fn valid_literal_location(syntax: LiteralSyntax, line: Seq<char>, pos: int) -> bool {
    let before = line.subrange(0, pos);
    match syntax {
        LiteralSyntax::C => {
            &&& count_char(before, '"') % 2 == 0
            &&& !after_marker(line, "//"@, pos)
            &&& !in_block_comment(line, pos)
        },
        LiteralSyntax::Python => {
            &&& count_char(before, '\'') % 2 == 0
            &&& count_char(before, '"') % 2 == 0
            &&& !after_marker(line, "#"@, pos)
        },
        LiteralSyntax::Rust => {
            &&& count_char(before, '"') % 2 == 0
            &&& !after_marker(line, "//"@, pos)
        },
        LiteralSyntax::TypeScript => {
            &&& count_char(before, '\'') % 2 == 0
            &&& count_char(before, '"') % 2 == 0
            &&& count_char(before, '`') % 2 == 0
            &&& !after_marker(line, "//"@, pos)
        },
    }
}

fn is_after_marker(line: &Vec<char>, marker: &str, pos: usize) -> (r: bool)
    ensures
        r == after_marker(line@, marker@, pos as int),
{
    match find_str(line, marker) {
        Some(m) => pos > m,
        None => false,
    }
}

/// Decides `valid_literal_location` for a position in a line.
pub fn is_valid_literal_location_in(syntax: LiteralSyntax, line: &Vec<char>, pos: usize) -> (r: bool)
    requires
        pos <= line@.len(),
    ensures
        r == valid_literal_location(syntax, line@, pos as int),
{
    let dq = count_char_before(line, '"', pos);
    match syntax {
        LiteralSyntax::C => {
            if dq % 2 == 1 {
                return false;
            }
            if is_after_marker(line, "//", pos) {
                return false;
            }
            match find_str(line, "/*") {
                Some(cs) => {
                    if pos > cs {
                        match find_str(line, "*/") {
                            Some(ce) => {
                                if pos < ce {
                                    return false;
                                }
                            },
                            None => {
                                return false;
                            },
                        }
                    }
                },
                None => {},
            }
            true
        },
        LiteralSyntax::Python => {
            let sq = count_char_before(line, '\'', pos);
            if sq % 2 == 1 || dq % 2 == 1 {
                return false;
            }
            !is_after_marker(line, "#", pos)
        },
        LiteralSyntax::Rust => {
            if dq % 2 == 1 {
                return false;
            }
            !is_after_marker(line, "//", pos)
        },
        LiteralSyntax::TypeScript => {
            let sq = count_char_before(line, '\'', pos);
            let bq = count_char_before(line, '`', pos);
            if sq % 2 == 1 || dq % 2 == 1 || bq % 2 == 1 {
                return false;
            }
            !is_after_marker(line, "//", pos)
        },
    }
}

/// `lit` occurs at `p` in `line`, outside strings and comments.
pub open spec fn literal_occurs(syntax: LiteralSyntax, line: Seq<char>, lit: Seq<char>, p: int) -> bool {
    occurs_at(line, lit, p) && valid_literal_location(syntax, line, p)
}

/// The columns below `n`, in increasing order, where `lit` occurs in `line`
/// outside strings and comments.
pub open spec fn occurrence_cols(syntax: LiteralSyntax, line: Seq<char>, lit: Seq<char>, n: int) -> Seq<int>
    decreases n,
{
    if n <= 0 {
        Seq::empty()
    } else if literal_occurs(syntax, line, lit, n - 1) {
        occurrence_cols(syntax, line, lit, n - 1).push(n - 1)
    } else {
        occurrence_cols(syntax, line, lit, n - 1)
    }
}

/// The occurrences of `lit` in the first `k` of `lines`, line by line and left
/// to right, as ranges.
pub open spec fn occurrence_ranges(syntax: LiteralSyntax, lines: Seq<Seq<char>>, lit: Seq<char>, k: int) -> Seq<CodeRange>
    decreases k,
{
    if k <= 0 {
        Seq::empty()
    } else {
        let line = lines[k - 1];
        occurrence_ranges(syntax, lines, lit, k - 1) + occurrence_cols(syntax, line, lit, line.len() + 1int).map_values(
            |p: int| range_on_line(k - 1, p, p + lit.len()),
        )
    }
}

/// All occurrences of `lit` in `source`, outside strings and comments.
pub open spec fn literal_occurrences(syntax: LiteralSyntax, source: Seq<char>, lit: Seq<char>) -> Seq<CodeRange> {
    let lines = lines_of(source);
    occurrence_ranges(syntax, lines, lit, lines.len() as int)
}

/// Finds every occurrence of a non-empty literal in source text, skipping those
/// inside strings or comments.
pub fn find_literal_occurrences_in(syntax: LiteralSyntax, source: &str, lit: &str) -> (r: Vec<CodeRange>)
    requires
        lit@.len() > 0,
    ensures
        r@ == literal_occurrences(syntax, source@, lit@),
{
    let src = str_chars(source);
    let litc = str_chars(lit);
    let lines = split_lines(&src);
    let ghost ls = vv(&lines);
    let mut out: Vec<CodeRange> = Vec::new();
    let mut k: usize = 0;
    while k < lines.len()
        invariant
            k <= lines@.len(),
            ls == vv(&lines),
            ls == lines_of(source@),
            litc@ == lit@,
            litc@.len() > 0,
            out@ == occurrence_ranges(syntax, ls, lit@, k as int),
        decreases lines@.len() - k,
    {
        let line = &lines[k];
        assert(line@ == ls[k as int]);
        let ghost before = out@;
        let mut p: usize = 0;
        let ghost f = |p: int| range_on_line(k as int, p, p + lit@.len());
        while p < line.len()
            invariant
                p <= line@.len(),
                litc@.len() > 0,
                line@ == ls[k as int],
                litc@ == lit@,
                f == (|p: int| range_on_line(k as int, p, p + lit@.len())),
                out@ == before + occurrence_cols(syntax, line@, lit@, p as int).map_values(f),
            decreases line@.len() + 1 - p,
        {
            let ghost prev = occurrence_cols(syntax, line@, lit@, p as int);
            if matches_at(line, &litc, p) {
                if is_valid_literal_location_in(syntax, line, p) {
                    let end = p + litc.len();
                    let rg = make_range(k, p, end);
                    out.push(rg);
                    assert(prev.push(p as int).map_values(f) =~= prev.map_values(f).push(f(p as int)));
                }
            }
            p = p + 1;
        }
        assert(!literal_occurs(syntax, line@, lit@, line@.len() as int));
        k = k + 1;
    }
    out
}

/// A character that may continue a Python or Rust number literal.
pub open spec fn number_char(c: char) -> bool {
    is_digit(c) || c == '.' || c == '_'
}

/// Start of the run of number characters that ends at `col`.
pub open spec fn number_run_start(s: Seq<char>, col: int) -> int
    decreases col,
{
    if col <= 0 {
        0
    } else if number_char(s[col - 1]) {
        number_run_start(s, col - 1)
    } else {
        col
    }
}

/// End of the run of number characters that starts at `i`.
pub open spec fn number_run_end(s: Seq<char>, i: int) -> int
    decreases s.len() - i,
{
    if i >= s.len() || i < 0 {
        i
    } else if number_char(s[i]) {
        number_run_end(s, i + 1)
    } else {
        i
    }
}

/// `s` holds at least one decimal digit.
pub open spec fn has_digit(s: Seq<char>) -> bool {
    exists|i: int| 0 <= i < s.len() && is_digit(#[trigger] s[i])
}

/// The number literal under the cursor at `col` (Python and Rust): the run of
/// digits, `.` and `_` around the cursor, with a `-` just before it, accepted
/// when it holds a digit and parses as a float.
pub open spec fn number_literal_at(s: Seq<char>, col: int) -> Option<(Seq<char>, CodeRange)> {
    if col < 0 || col >= s.len() {
        None
    } else {
        let start = if col > 0 && s[col - 1] == '-' {
            col - 1
        } else {
            number_run_start(s, col)
        };
        let a = if start > 0 && s[start - 1] == '-' {
            start - 1
        } else {
            start
        };
        let e = number_run_end(s, col);
        if a < e && e <= s.len() && has_digit(s.subrange(a, e)) && float_syntax(s.subrange(a, e)) {
            Some((s.subrange(a, e), range_on_line(0, a, e)))
        } else {
            None
        }
    }
}

fn is_number_char(c: char) -> (r: bool)
    ensures
        r == number_char(c),
{
    char_is_digit(c) || c == '.' || c == '_'
}

proof fn lemma_number_run_start(s: Seq<char>, col: int, i: int)
    requires
        0 <= i <= col <= s.len(),
        forall|j: int| i <= j < col ==> number_char(#[trigger] s[j]),
        i == 0 || !number_char(s[i - 1]),
    ensures
        number_run_start(s, col) == i,
    decreases col,
{
    if col > i {
        lemma_number_run_start(s, col - 1, i);
    }
}

proof fn lemma_number_run_end(s: Seq<char>, i: int, e: int)
    requires
        0 <= i <= e <= s.len(),
        forall|j: int| i <= j < e ==> number_char(#[trigger] s[j]),
        e == s.len() || !number_char(s[e]),
    ensures
        number_run_end(s, i) == e,
    decreases e - i,
{
    if i < e {
        lemma_number_run_end(s, i + 1, e);
    }
}

pub fn has_digit_exec(s: &Vec<char>) -> (r: bool)
    ensures
        r == has_digit(s@),
{
    let mut i: usize = 0;
    while i < s.len()
        invariant
            i <= s@.len(),
            forall|j: int| 0 <= j < i ==> !is_digit(#[trigger] s@[j]),
        decreases s@.len() - i,
    {
        if char_is_digit(s[i]) {
            return true;
        }
        i = i + 1;
    }
    false
}

/// Finds the Python or Rust number literal under the cursor.
pub fn find_number_literal(line: &Vec<char>, col: usize) -> (r: Option<(String, CodeRange)>)
    ensures
        match r {
            Some((t, rg)) => number_literal_at(line@, col as int) == Some((t@, rg)),
            None => number_literal_at(line@, col as int) is None,
        },
{
    let n = line.len();
    if col >= n {
        return None;
    }
    let start = if col > 0 && line[col - 1] == '-' {
        col - 1
    } else {
        let mut i: usize = col;
        while i > 0 && is_number_char(line[i - 1])
            invariant
                i <= col < n,
                n == line@.len(),
                forall|j: int| i <= j < col ==> number_char(#[trigger] line@[j]),
            decreases i,
        {
            i = i - 1;
        }
        proof {
            lemma_number_run_start(line@, col as int, i as int);
        }
        i
    };
    let a = if start > 0 && line[start - 1] == '-' {
        start - 1
    } else {
        start
    };
    let mut e: usize = col;
    while e < n && is_number_char(line[e])
        invariant
            col <= e <= n,
            n == line@.len(),
            forall|j: int| col <= j < e ==> number_char(#[trigger] line@[j]),
        decreases n - e,
    {
        e = e + 1;
    }
    proof {
        lemma_number_run_end(line@, col as int, e as int);
    }
    if a < e {
        let text = slice_chars(line, a, e);
        if has_digit_exec(&text) && is_float_syntax(&text) {
            let t = chars_to_string(&text);
            return Some((t, make_range(0, a, e)));
        }
    }
    None
}

/// `kw` stands at `start` as a whole word.
pub open spec fn keyword_at(s: Seq<char>, kw: Seq<char>, start: int) -> bool {
    &&& occurs_at(s, kw, start)
    &&& (start == 0 || !is_word_char(s[start - 1]))
    &&& (start + kw.len() == s.len() || !is_word_char(s[start + kw.len()]))
}

/// The first start in `lo..=hi` where `kw` stands as a whole word.
pub open spec fn keyword_search(s: Seq<char>, kw: Seq<char>, lo: int, hi: int) -> Option<int>
    decreases hi - lo + 1,
{
    if lo > hi {
        None
    } else if keyword_at(s, kw, lo) {
        Some(lo)
    } else {
        keyword_search(s, kw, lo + 1, hi)
    }
}

/// Where the keyword literal `kw` under the cursor starts: the first whole-word
/// occurrence starting between `kw.len()` characters before `col` and `col`.
pub open spec fn keyword_literal_at(s: Seq<char>, kw: Seq<char>, col: int) -> Option<int> {
    let lo = if col >= kw.len() { col - kw.len() } else { 0 };
    let last = if s.len() >= kw.len() { s.len() - kw.len() } else { 0 };
    let hi = if col <= last { col } else { last };
    keyword_search(s, kw, lo, hi)
}

fn is_keyword_at(s: &Vec<char>, kw: &Vec<char>, start: usize) -> (r: bool)
    ensures
        r == keyword_at(s@, kw@, start as int),
{
    let n = s.len();
    if !matches_at(s, kw, start) {
        return false;
    }
    assert(start + kw@.len() <= n);
    let before_ok = start == 0 || !char_is_word(s[start - 1]);
    let after_ok = start + kw.len() == s.len() || !char_is_word(s[start + kw.len()]);
    before_ok && after_ok
}

/// Finds the keyword literal `kw` under the cursor at `col`.
pub fn find_keyword_literal(s: &Vec<char>, kw: &str, col: usize) -> (r: Option<(String, CodeRange)>)
    ensures
        match r {
            Some((t, rg)) => keyword_literal_at(s@, kw@, col as int) matches Some(st) && t@ == kw@
                && rg == range_on_line(0, st, st + kw@.len()),
            None => keyword_literal_at(s@, kw@, col as int) is None,
        },
{
    let kwc = str_chars(kw);
    let k = kwc.len();
    let lo: usize = if col >= k { col - k } else { 0 };
    let last: usize = if s.len() >= k { s.len() - k } else { 0 };
    let hi: usize = if col <= last { col } else { last };
    if lo > hi {
        return None;
    }
    let n = s.len();
    let mut st: usize = lo;
    while st <= hi
        invariant
            lo <= st <= hi,
            hi <= s@.len(),
            n == s@.len(),
            keyword_literal_at(s@, kw@, col as int) == keyword_search(s@, kw@, lo as int, hi as int),
            kwc@ == kw@,
            k == kw@.len(),
            keyword_search(s@, kw@, lo as int, hi as int) == keyword_search(s@, kw@, st as int, hi as int),
        decreases hi + 1 - st,
    {
        if is_keyword_at(s, &kwc, st) {
            assert(st + k <= s@.len());
            let t = chars_to_string(&kwc);
            return Some((t, make_range(0, st, st + k)));
        }
        assert(keyword_search(s@, kw@, st as int, hi as int) == keyword_search(s@, kw@, st + 1, hi as int));
        if st == hi {
            assert(keyword_search(s@, kw@, st + 1, hi as int) is None);
            return None;
        }
        st = st + 1;
    }
    None
}

/// The last quote character (`"` or `'`) before `col`, if any.
pub open spec fn last_quote_before(s: Seq<char>, col: int) -> Option<int>
    decreases col,
{
    if col <= 0 {
        None
    } else if s[col - 1] == '"' || s[col - 1] == '\'' {
        Some(col - 1)
    } else {
        last_quote_before(s, col - 1)
    }
}

/// The first position at or after `from` holding `c`.
pub open spec fn next_char_from(s: Seq<char>, c: char, from: int) -> Option<int>
    decreases s.len() - from,
{
    if from < 0 || from >= s.len() {
        None
    } else if s[from] == c {
        Some(from)
    } else {
        next_char_from(s, c, from + 1)
    }
}

/// A triple-quoted string opening with `q` at `i` whose closing `q` ends at or
/// after `col`; yields that end.
pub open spec fn triple_string_end(s: Seq<char>, q: Seq<char>, col: int, i: int) -> Option<int> {
    if occurs_at(s, q, i) {
        match first_occurrence_from(s, q, i + q.len()) {
            Some(c) => if col <= c + q.len() {
                Some(c + q.len())
            } else {
                None
            },
            None => None,
        }
    } else {
        None
    }
}

/// The latest opening at or before `i` for which `triple_string_end` succeeds.
pub open spec fn triple_search(s: Seq<char>, q: Seq<char>, col: int, i: int) -> Option<(int, int)>
    decreases i + 1,
{
    if i < 0 {
        None
    } else {
        match triple_string_end(s, q, col, i) {
            Some(e) => Some((i, e)),
            None => triple_search(s, q, col, i - 1),
        }
    }
}

/// A triple-quoted string around the cursor, looked for only when the quote
/// sequence `q` ends exactly at `col`.
pub open spec fn triple_string_at(s: Seq<char>, q: Seq<char>, col: int) -> Option<(int, int)> {
    if col >= q.len() && occurs_at(s, q, col - q.len()) {
        triple_search(s, q, col, col - q.len())
    } else {
        None
    }
}

/// Three double quotes.
pub open spec fn dq3() -> Seq<char> {
    seq!['"', '"', '"']
}

/// Three single quotes.
pub open spec fn sq3() -> Seq<char> {
    seq!['\'', '\'', '\'']
}

/// Span of the Python string literal under the cursor, quotes included: a
/// triple-quoted string (double quotes tried first), else the text from the
/// last quote before the cursor to the next matching quote at or after it.
pub open spec fn string_literal_at(s: Seq<char>, col: int) -> Option<(int, int)> {
    if col < 0 || col >= s.len() {
        None
    } else {
        match triple_string_at(s, dq3(), col) {
            Some(r) => Some(r),
            None => match triple_string_at(s, sq3(), col) {
                Some(r) => Some(r),
                None => match last_quote_before(s, col) {
                    Some(i) => match next_char_from(s, s[i], col) {
                        Some(j) => Some((i, j + 1)),
                        None => None,
                    },
                    None => None,
                },
            },
        }
    }
}

fn find_triple_string(s: &Vec<char>, q: &Vec<char>, col: usize) -> (r: Option<(usize, usize)>)
    requires
        q@.len() == 3,
    ensures
        match r {
            Some((i, e)) => triple_string_at(s@, q@, col as int) == Some((i as int, e as int)) && i
                < e <= s@.len(),
            None => triple_string_at(s@, q@, col as int) is None,
        },
{
    if col < 3 || !matches_at(s, q, col - 3) {
        return None;
    }
    let check = col - 3;
    let n = s.len();
    let mut i: usize = check + 1;
    while i > 0
        invariant
            n == s@.len(),
            i <= check + 1,
            check + 3 == col,
            q@.len() == 3,
            col <= s@.len(),
            triple_search(s@, q@, col as int, check as int) == triple_search(s@, q@, col as int, i - 1),
            triple_string_at(s@, q@, col as int) == triple_search(s@, q@, col as int, check as int),
        decreases i,
    {
        let c = i - 1;
        if matches_at(s, q, c) {
            match crate::text::find_from(s, q, c + 3) {
                Some(close) => {
                    proof {
                        crate::text::lemma_first_occurrence_some(s@, q@, c + 3, close as int);
                    }
                    assert(close + 3 <= n);
                    let end = close + 3;
                    assert(triple_string_end(s@, q@, col as int, c as int) == (if col <= end {
                        Some(end as int)
                    } else {
                        None::<int>
                    }));
                    if col <= end {
                        return Some((c, end));
                    }
                },
                None => {},
            }
        }
        i = i - 1;
    }
    None
}

/// Finds the span of the Python string literal under the cursor.
pub fn find_string_literal_span(s: &Vec<char>, col: usize) -> (r: Option<(usize, usize)>)
    ensures
        match r {
            Some((i, e)) => string_literal_at(s@, col as int) == Some((i as int, e as int)) && i < e
                <= s@.len(),
            None => string_literal_at(s@, col as int) is None,
        },
{
    if col >= s.len() {
        return None;
    }
    let dq = vec!['"', '"', '"'];
    assert(dq@ =~= dq3());
    match find_triple_string(s, &dq, col) {
        Some(r) => {
            return Some(r);
        },
        None => {},
    }
    let sq = vec!['\'', '\'', '\''];
    assert(sq@ =~= sq3());
    match find_triple_string(s, &sq, col) {
        Some(r) => {
            return Some(r);
        },
        None => {},
    }
    let mut i: usize = col;
    while i > 0 && s[i - 1] != '"' && s[i - 1] != '\''
        invariant
            i <= col < s@.len(),
            triple_string_at(s@, dq3(), col as int) is None,
            triple_string_at(s@, sq3(), col as int) is None,
            last_quote_before(s@, col as int) == last_quote_before(s@, i as int),
        decreases i,
    {
        i = i - 1;
    }
    if i == 0 {
        return None;
    }
    let qpos = i - 1;
    let quote = s[qpos];
    let mut j: usize = col;
    assert(last_quote_before(s@, col as int) == Some(qpos as int));
    while j < s.len()
        invariant
            col <= j <= s@.len(),
            qpos < col < s@.len(),
            quote == s@[qpos as int],
            last_quote_before(s@, col as int) == Some(qpos as int),
            triple_string_at(s@, dq3(), col as int) is None,
            triple_string_at(s@, sq3(), col as int) is None,
            next_char_from(s@, quote, col as int) == next_char_from(s@, quote, j as int),
        decreases s@.len() - j,
    {
        if s[j] == quote {
            return Some((qpos, j + 1));
        }
        j = j + 1;
    }
    None
}

/// A character the C scanner walks back over from the cursor.
pub open spec fn c_back_char(c: char) -> bool {
    is_digit(c) || c == '.' || c == 'x' || c == 'X'
}

/// Start of the run of `c_back_char` characters ending at `col`.
pub open spec fn c_run_start(s: Seq<char>, col: int) -> int
    decreases col,
{
    if col <= 0 {
        0
    } else if c_back_char(s[col - 1]) {
        c_run_start(s, col - 1)
    } else {
        col
    }
}

/// Start of a C number under the cursor: the run start, extended over a `-`
/// unless that `-` follows a letter or digit.
pub open spec fn c_literal_start(s: Seq<char>, col: int) -> int {
    let a = c_run_start(s, col);
    if a > 0 && s[a - 1] == '-' && !(a > 1 && unicode_alphanumeric(s[a - 2])) {
        a - 1
    } else {
        a
    }
}

/// The number starting at `start` has a `0x`/`0X` prefix.
pub open spec fn c_is_hex_at(s: Seq<char>, start: int) -> bool {
    start + 1 < s.len() && s[start] == '0' && (s[start + 1] == 'x' || s[start + 1] == 'X')
}

/// A character the C scanner walks forward over at position `i`.
pub open spec fn c_forward_char(s: Seq<char>, start: int, hex: bool, i: int) -> bool {
    let c = s[i];
    ||| is_digit(c) || c == '.' || c == 'e' || c == 'E' || c == '-' || c == '+'
    ||| hex && is_hex_digit(c)
    ||| hex && i < start + 2 && (c == 'x' || c == 'X')
}

/// End of the run of `c_forward_char` characters from `i`.
pub open spec fn c_run_end(s: Seq<char>, start: int, hex: bool, i: int) -> int
    decreases s.len() - i,
{
    if i < 0 || i >= s.len() {
        i
    } else if c_forward_char(s, start, hex, i) {
        c_run_end(s, start, hex, i + 1)
    } else {
        i
    }
}

/// A valid C number: holds a digit, and is hexadecimal (`0x` then hex digits),
/// octal (leading `0`, no `.`, digits `0`-`7`), or a decimal/float that
/// `str::parse::<f64>` accepts.
pub open spec fn c_number_syntax(t: Seq<char>) -> bool {
    &&& has_digit(t)
    &&& if has_prefix(t, seq!['0', 'x']) || has_prefix(t, seq!['0', 'X']) {
        t.len() > 2 && forall|i: int| 2 <= i < t.len() ==> is_hex_digit(#[trigger] t[i])
    } else if t.len() > 1 && t[0] == '0' && !contains_char(t, '.') {
        forall|i: int| 0 <= i < t.len() ==> ('0' <= #[trigger] t[i] && t[i] <= '7')
    } else {
        float_syntax(t)
    }
}

/// The C number literal under the cursor at `col`.
pub open spec fn c_number_literal_at(s: Seq<char>, col: int) -> Option<(Seq<char>, CodeRange)> {
    if col < 0 || col >= s.len() {
        None
    } else {
        let start = c_literal_start(s, col);
        let end = c_run_end(s, start, c_is_hex_at(s, start), start);
        if start < end && end <= s.len() && c_number_syntax(s.subrange(start, end)) {
            Some((s.subrange(start, end), range_on_line(0, start, end)))
        } else {
            None
        }
    }
}

proof fn lemma_c_run_start(s: Seq<char>, col: int, i: int)
    requires
        0 <= i <= col <= s.len(),
        forall|j: int| i <= j < col ==> c_back_char(#[trigger] s[j]),
        i == 0 || !c_back_char(s[i - 1]),
    ensures
        c_run_start(s, col) == i,
    decreases col,
{
    if col > i {
        lemma_c_run_start(s, col - 1, i);
    }
}

proof fn lemma_c_run_end(s: Seq<char>, start: int, hex: bool, i: int, e: int)
    requires
        0 <= i <= e <= s.len(),
        forall|j: int| i <= j < e ==> #[trigger] c_forward_char(s, start, hex, j),
        e == s.len() || !c_forward_char(s, start, hex, e),
    ensures
        c_run_end(s, start, hex, i) == e,
    decreases e - i,
{
    if i < e {
        lemma_c_run_end(s, start, hex, i + 1, e);
    }
}

/// Decides `c_number_syntax`.
#[verifier::loop_isolation(false)]
pub fn is_valid_c_number(t: &Vec<char>) -> (r: bool)
    ensures
        r == c_number_syntax(t@),
{
    if !has_digit_exec(t) {
        return false;
    }
    let p1 = vec!['0', 'x'];
    let p2 = vec!['0', 'X'];
    assert(p1@ =~= seq!['0', 'x']);
    assert(p2@ =~= seq!['0', 'X']);
    let n = t.len();
    if starts_with(t, &p1) || starts_with(t, &p2) {
        if n <= 2 {
            return false;
        }
        let mut i: usize = 2;
        while i < n
            invariant
                2 <= i <= n,
                n == t@.len(),
                forall|j: int| 2 <= j < i ==> is_hex_digit(#[trigger] t@[j]),
            decreases n - i,
        {
            if !char_is_hex_digit(t[i]) {
                return false;
            }
            i = i + 1;
        }
        return true;
    }
    if n > 1 && t[0] == '0' && !contains_ch(t, '.') {
        let mut i: usize = 0;
        while i < n
            invariant
                i <= n,
                n == t@.len(),
                forall|j: int| 0 <= j < i ==> ('0' <= #[trigger] t@[j] && t@[j] <= '7'),
            decreases n - i,
        {
            if !('0' <= t[i] && t[i] <= '7') {
                return false;
            }
            i = i + 1;
        }
        return true;
    }
    is_float_syntax(t)
}

fn is_c_forward_char(s: &Vec<char>, start: usize, hex: bool, i: usize) -> (r: bool)
    requires
        i < s@.len(),
    ensures
        r == c_forward_char(s@, start as int, hex, i as int),
{
    let c = s[i];
    (char_is_digit(c) || c == '.' || c == 'e' || c == 'E' || c == '-' || c == '+')
        || (hex && char_is_hex_digit(c))
        || (hex && (i < start || i - start < 2) && (c == 'x' || c == 'X'))
}

/// Finds the C number literal under the cursor.
pub fn find_c_number_literal(line: &Vec<char>, col: usize) -> (r: Option<(String, CodeRange)>)
    ensures
        match r {
            Some((t, rg)) => c_number_literal_at(line@, col as int) == Some((t@, rg)),
            None => c_number_literal_at(line@, col as int) is None,
        },
{
    let n = line.len();
    if col >= n {
        return None;
    }
    let mut a: usize = col;
    while a > 0 && (char_is_digit(line[a - 1]) || line[a - 1] == '.' || line[a - 1] == 'x' || line[a - 1] == 'X')
        invariant
            a <= col < n,
            n == line@.len(),
            forall|j: int| a <= j < col ==> c_back_char(#[trigger] line@[j]),
        decreases a,
    {
        a = a - 1;
    }
    proof {
        lemma_c_run_start(line@, col as int, a as int);
    }
    let start: usize = if a > 0 && line[a - 1] == '-' && !(a > 1 && char_is_alphanumeric(line[a - 2])) {
        a - 1
    } else {
        a
    };
    let hex = start + 1 < n && line[start] == '0' && (line[start + 1] == 'x' || line[start + 1] == 'X');
    let mut end: usize = start;
    while end < n && is_c_forward_char(line, start, hex, end)
        invariant
            start <= end <= n,
            n == line@.len(),
            forall|j: int| start <= j < end ==> #[trigger] c_forward_char(line@, start as int, hex, j),
        decreases n - end,
    {
        end = end + 1;
    }
    proof {
        lemma_c_run_end(line@, start as int, hex, start as int, end as int);
    }
    if start < end {
        let text = slice_chars(line, start, end);
        if is_valid_c_number(&text) {
            let t = chars_to_string(&text);
            return Some((t, make_range(0, start, end)));
        }
    }
    None
}


/// An occurrence is reported at a column exactly when the literal occurs there
/// outside strings and comments; the columns come in increasing order.
pub proof fn law_occurrence_columns_exact(syntax: LiteralSyntax, line: Seq<char>, lit: Seq<char>, n: int, p: int)
    ensures
        occurrence_cols(syntax, line, lit, n).contains(p) <==> (0 <= p < n && literal_occurs(syntax, line, lit, p)),
        forall|i: int, j: int| 0 <= i < j < occurrence_cols(syntax, line, lit, n).len() ==>
            occurrence_cols(syntax, line, lit, n)[i] < occurrence_cols(syntax, line, lit, n)[j],
    decreases n,
{
    if n > 0 {
        law_occurrence_columns_exact(syntax, line, lit, n - 1, p);
        let prev = occurrence_cols(syntax, line, lit, n - 1);
        lemma_occurrence_cols_below(syntax, line, lit, n - 1);
        if literal_occurs(syntax, line, lit, n - 1) {
            let cur = prev.push(n - 1);
            assert(cur.contains(p) <==> (prev.contains(p) || p == n - 1)) by {
                if p == n - 1 {
                    assert(cur[prev.len() as int] == p);
                }
                if cur.contains(p) && p != n - 1 {
                    let k = choose|k: int| 0 <= k < cur.len() && cur[k] == p;
                    assert(k < prev.len());
                    assert(prev[k] == p);
                }
                if prev.contains(p) {
                    let k = choose|k: int| 0 <= k < prev.len() && prev[k] == p;
                    assert(cur[k] == p);
                }
            }
        }
    }
}

proof fn lemma_occurrence_cols_below(syntax: LiteralSyntax, line: Seq<char>, lit: Seq<char>, n: int)
    ensures
        forall|i: int| 0 <= i < occurrence_cols(syntax, line, lit, n).len() ==> occurrence_cols(syntax, line, lit, n)[i] < n,
    decreases n,
{
    if n > 0 {
        lemma_occurrence_cols_below(syntax, line, lit, n - 1);
        let prev = occurrence_cols(syntax, line, lit, n - 1);
        if literal_occurs(syntax, line, lit, n - 1) {
            let cur = prev.push(n - 1);
            assert forall|i: int| 0 <= i < cur.len() implies cur[i] < n by {
                if i < prev.len() {
                    assert(cur[i] == prev[i]);
                }
            }
        }
    }
}

/// No occurrence of `marker` starts before `p` when `p` is not after the
/// marker's first occurrence.
proof fn lemma_not_after_marker(line: Seq<char>, marker: Seq<char>, p: int, m: int)
    requires
        !after_marker(line, marker, p),
        0 <= m < p,
    ensures
        !occurs_at(line, marker, m),
{
    match first_occurrence(line, marker) {
        Some(f) => {
            lemma_first_occurrence_some(line, marker, 0, f);
        },
        None => {},
    }
}

/// Occurrence `i` among the first `k` lines comes from a column of one of
/// them where the literal occurs outside strings and comments.
proof fn lemma_range_from_column(syntax: LiteralSyntax, lines: Seq<Seq<char>>, lit: Seq<char>, k: int, i: int)
    requires
        0 <= k <= lines.len(),
        0 <= i < occurrence_ranges(syntax, lines, lit, k).len(),
    ensures
        exists|j: int, p: int| #![trigger literal_occurs(syntax, lines[j], lit, p)]
            0 <= j < k && occurrence_ranges(syntax, lines, lit, k)[i] == range_on_line(j, p, p + lit.len())
                && literal_occurs(syntax, lines[j], lit, p),
    decreases k,
{
    let prev = occurrence_ranges(syntax, lines, lit, k - 1);
    let line = lines[k - 1];
    let cols = occurrence_cols(syntax, line, lit, line.len() + 1int);
    let cur = occurrence_ranges(syntax, lines, lit, k);
    if i < prev.len() {
        lemma_range_from_column(syntax, lines, lit, k - 1, i);
        assert(cur[i] == prev[i]);
    } else {
        let c = cols[i - prev.len()];
        law_occurrence_columns_exact(syntax, line, lit, line.len() + 1int, c);
        assert(cols.contains(c));
        assert(cur[i] == range_on_line(k - 1, c, c + lit.len()));
        assert(literal_occurs(syntax, lines[k - 1], lit, c));
    }
}

/// Each reported occurrence sits on a line of the source, at a column where
/// the literal stands, with an even number of `"` before it on its line and
/// no line comment opened before it (`#` for Python, `//` otherwise); for
/// Python and TypeScript an even number of `'` precedes it too, for
/// TypeScript an even number of backquotes, and for C it is not inside a
/// `/* */` comment. So nothing inside a string or a comment is replaced.
pub proof fn law_occurrences_outside_strings_and_comments(syntax: LiteralSyntax, source: Seq<char>, lit: Seq<char>, i: int)
    requires
        0 <= i < literal_occurrences(syntax, source, lit).len(),
    ensures
        exists|j: int, p: int|
            #![trigger lines_of(source)[j].subrange(0, p)]
            0 <= j < lines_of(source).len()
            && literal_occurrences(syntax, source, lit)[i] == range_on_line(j, p, p + lit.len())
            && 0 <= p && p + lit.len() <= lines_of(source)[j].len()
            && lines_of(source)[j].subrange(p, p + lit.len()) == lit
            && count_char(lines_of(source)[j].subrange(0, p), '"') % 2 == 0
            && (syntax == LiteralSyntax::Python || syntax == LiteralSyntax::TypeScript
                ==> count_char(lines_of(source)[j].subrange(0, p), '\'') % 2 == 0)
            && (syntax == LiteralSyntax::TypeScript ==> count_char(lines_of(source)[j].subrange(0, p), '`') % 2 == 0)
            && (syntax == LiteralSyntax::Python ==> forall|m: int| 0 <= m < p ==> !(#[trigger] occurs_at(lines_of(source)[j], "#"@, m)))
            && (syntax != LiteralSyntax::Python ==> forall|m: int| 0 <= m < p ==> !(#[trigger] occurs_at(lines_of(source)[j], "//"@, m)))
            && (syntax == LiteralSyntax::C ==> !in_block_comment(lines_of(source)[j], p)),
{
    let lines = lines_of(source);
    lemma_range_from_column(syntax, lines, lit, lines.len() as int, i);
    let (j, p) = choose|j: int, p: int| #![trigger literal_occurs(syntax, lines[j], lit, p)]
        0 <= j < lines.len() && literal_occurrences(syntax, source, lit)[i] == range_on_line(j, p, p + lit.len())
            && literal_occurs(syntax, lines[j], lit, p);
    let line = lines[j];
    if syntax == LiteralSyntax::Python {
        assert forall|m: int| 0 <= m < p implies !occurs_at(line, "#"@, m) by {
            lemma_not_after_marker(line, "#"@, p, m);
        }
    } else {
        assert forall|m: int| 0 <= m < p implies !occurs_at(line, "//"@, m) by {
            lemma_not_after_marker(line, "//"@, p, m);
        }
    }
    assert(line.subrange(0, p) == lines_of(source)[j].subrange(0, p));
}

/// A Python position with an odd number of `'` before it on its line lies in
/// a single-quoted string and is never a literal location.
pub proof fn law_python_single_quoted_is_not_a_location(line: Seq<char>, pos: int)
    requires
        0 <= pos <= line.len(),
        count_char(line.subrange(0, pos), '\'') % 2 == 1,
    ensures
        !valid_literal_location(LiteralSyntax::Python, line, pos),
{
}

proof fn lemma_number_run_start_bounds(s: Seq<char>, col: int)
    requires
        0 <= col <= s.len(),
    ensures
        0 <= number_run_start(s, col) <= col,
        number_run_start(s, col) == 0 || !number_char(s[number_run_start(s, col) - 1]),
        forall|k: int| number_run_start(s, col) <= k < col ==> number_char(#[trigger] s[k]),
    decreases col,
{
    if col > 0 && number_char(s[col - 1]) {
        lemma_number_run_start_bounds(s, col - 1);
    }
}

proof fn lemma_number_run_end_bounds(s: Seq<char>, i: int)
    requires
        0 <= i <= s.len(),
    ensures
        i <= number_run_end(s, i) <= s.len(),
        number_run_end(s, i) == s.len() || !number_char(s[number_run_end(s, i)]),
        forall|k: int| i <= k < number_run_end(s, i) ==> number_char(#[trigger] s[k]),
    decreases s.len() - i,
{
    if i < s.len() && number_char(s[i]) {
        lemma_number_run_end_bounds(s, i + 1);
    }
}

/// The number found under the cursor is the text of its range, reaches the
/// cursor, and runs as far right as number characters (digits, `.`, `_`) go;
/// unless it opens with `-`, it also runs as far left as they go and no `-`
/// stands right before it, so neither a digit nor the sign is left out.
pub proof fn law_number_literal_is_whole(s: Seq<char>, col: int)
    ensures
        number_literal_at(s, col) matches Some((t, rg)) ==> exists|a: int, e: int|
            #![trigger s.subrange(a, e)]
            0 <= a <= col <= e <= s.len() && a < e && t == s.subrange(a, e) && rg == range_on_line(0, a, e)
            && (e == s.len() || !number_char(s[e]))
            && (forall|k: int| col <= k < e ==> number_char(#[trigger] s[k]))
            && (s[a] != '-' ==> (a == 0 || (!number_char(s[a - 1]) && s[a - 1] != '-'))
                && forall|k: int| a <= k < col ==> number_char(#[trigger] s[k])),
{
    if 0 <= col < s.len() {
        lemma_number_run_start_bounds(s, col);
        lemma_number_run_end_bounds(s, col);
        let start = if col > 0 && s[col - 1] == '-' { col - 1 } else { number_run_start(s, col) };
        let a = if start > 0 && s[start - 1] == '-' { start - 1 } else { start };
        let e = number_run_end(s, col);
        if number_literal_at(s, col) is Some {
            assert(s.subrange(a, e) == s.subrange(a, e));
        }
    }
}

} // verus!
