//! Character-sequence model of source text and the primitive scanning
//! operations that the language modules build on.
//!
//! Text is modelled as `Seq<char>`; every column and offset in this crate is a
//! character index into a line.

use vstd::prelude::*;

verus! {

/// True for the ASCII decimal digits `0`..=`9`.
pub open spec fn is_digit(c: char) -> bool {
    '0' <= c && c <= '9'
}

/// True for the ASCII upper-case letters `A`..=`Z`.
pub open spec fn is_upper(c: char) -> bool {
    'A' <= c && c <= 'Z'
}

/// True for the ASCII lower-case letters `a`..=`z`.
pub open spec fn is_lower(c: char) -> bool {
    'a' <= c && c <= 'z'
}

/// Checks whether `c` is an ASCII decimal digit.
pub fn char_is_digit(c: char) -> (r: bool)
    ensures
        r == is_digit(c),
{
    '0' <= c && c <= '9'
}

/// Checks whether `c` is an ASCII upper-case letter.
pub fn char_is_upper(c: char) -> (r: bool)
    ensures
        r == is_upper(c),
{
    'A' <= c && c <= 'Z'
}

/// The characters of a string slice, in order.
#[verifier::external_body]
pub(crate) fn str_chars(s: &str) -> (v: Vec<char>)
    ensures
        v@ == s@,
{
    s.chars().collect()
}


/// Unicode `White_Space` characters, the set that `str::trim` removes.
pub open spec fn is_ws(c: char) -> bool {
    ||| ('\u{9}' <= c && c <= '\u{d}')
    ||| c == ' '
    ||| c == '\u{85}'
    ||| c == '\u{a0}'
    ||| c == '\u{1680}'
    ||| ('\u{2000}' <= c && c <= '\u{200a}')
    ||| c == '\u{2028}'
    ||| c == '\u{2029}'
    ||| c == '\u{202f}'
    ||| c == '\u{205f}'
    ||| c == '\u{3000}'
}

/// Checks whether `c` is Unicode white space.
pub fn char_is_ws(c: char) -> (r: bool)
    ensures
        r == is_ws(c),
{
    ('\u{9}' <= c && c <= '\u{d}') || c == ' ' || c == '\u{85}' || c == '\u{a0}' || c == '\u{1680}'
        || ('\u{2000}' <= c && c <= '\u{200a}') || c == '\u{2028}' || c == '\u{2029}'
        || c == '\u{202f}' || c == '\u{205f}' || c == '\u{3000}'
}

/// Number of leading white-space characters of `s`.
pub open spec fn lead_ws(s: Seq<char>) -> nat
    decreases s.len(),
{
    if s.len() == 0 {
        0
    } else if is_ws(s[0]) {
        1 + lead_ws(s.drop_first())
    } else {
        0
    }
}

/// Number of trailing white-space characters of `s`.
pub open spec fn trail_ws(s: Seq<char>) -> nat
    decreases s.len(),
{
    if s.len() == 0 {
        0
    } else if is_ws(s.last()) {
        1 + trail_ws(s.drop_last())
    } else {
        0
    }
}

/// `s` without leading white space.
pub open spec fn trim_start(s: Seq<char>) -> Seq<char> {
    s.subrange(lead_ws(s) as int, s.len() as int)
}

/// `s` without trailing white space.
pub open spec fn trim_end(s: Seq<char>) -> Seq<char> {
    s.subrange(0, s.len() - trail_ws(s))
}

/// `s` without leading and trailing white space.
pub open spec fn trim(s: Seq<char>) -> Seq<char> {
    trim_end(trim_start(s))
}

pub proof fn lemma_lead_ws_bound(s: Seq<char>)
    ensures
        lead_ws(s) <= s.len(),
    decreases s.len(),
{
    if s.len() > 0 && is_ws(s[0]) {
        lemma_lead_ws_bound(s.drop_first());
    }
}

pub proof fn lemma_trail_ws_bound(s: Seq<char>)
    ensures
        trail_ws(s) <= s.len(),
    decreases s.len(),
{
    if s.len() > 0 && is_ws(s.last()) {
        lemma_trail_ws_bound(s.drop_last());
    }
}

/// `lead_ws` is the position of the first non-white-space character.
pub proof fn lemma_lead_ws_char(s: Seq<char>, i: int)
    requires
        0 <= i <= s.len(),
        forall|j: int| 0 <= j < i ==> is_ws(#[trigger] s[j]),
        i == s.len() || !is_ws(s[i]),
    ensures
        lead_ws(s) == i,
    decreases i,
{
    if i > 0 {
        let t = s.drop_first();
        assert forall|j: int| 0 <= j < i - 1 implies is_ws(#[trigger] t[j]) by {
            assert(t[j] == s[j + 1]);
        }
        if i < s.len() {
            assert(t[i - 1] == s[i]);
        }
        lemma_lead_ws_char(t, i - 1);
    }
}

/// `trail_ws` counts the white space after the last non-white-space character.
pub proof fn lemma_trail_ws_char(s: Seq<char>, k: int)
    requires
        0 <= k <= s.len(),
        forall|j: int| s.len() - k <= j < s.len() ==> is_ws(#[trigger] s[j]),
        k == s.len() || !is_ws(s[s.len() - k - 1]),
    ensures
        trail_ws(s) == k,
    decreases k,
{
    if k > 0 {
        let t = s.drop_last();
        assert forall|j: int| t.len() - (k - 1) <= j < t.len() implies is_ws(#[trigger] t[j]) by {
            assert(t[j] == s[j]);
        }
        if k < s.len() {
            assert(t[t.len() - (k - 1) - 1] == s[s.len() - k - 1]);
        }
        lemma_trail_ws_char(t, k - 1);
    }
}

/// Removes leading and trailing white space, like `str::trim`.
pub fn trim_chars(s: &Vec<char>) -> (r: Vec<char>)
    ensures
        r@ == trim(s@),
{
    let n = s.len();
    let mut a: usize = 0;
    while a < n && char_is_ws(s[a])
        invariant
            n == s@.len(),
            a <= n,
            forall|j: int| 0 <= j < a ==> is_ws(#[trigger] s@[j]),
        decreases n - a,
    {
        a = a + 1;
    }
    proof {
        lemma_lead_ws_char(s@, a as int);
    }
    let ghost t = trim_start(s@);
    let mut b: usize = n;
    while b > a && char_is_ws(s[b - 1])
        invariant
            n == s@.len(),
            a <= b <= n,
            t == s@.subrange(a as int, n as int),
            forall|j: int| b <= j < n ==> is_ws(#[trigger] s@[j]),
        decreases b - a,
    {
        b = b - 1;
    }
    proof {
        let k = (n - b) as int;
        assert forall|j: int| t.len() - k <= j < t.len() implies is_ws(#[trigger] t[j]) by {
            assert(t[j] == s@[j + a]);
        }
        if k < t.len() {
            assert(t[t.len() - k - 1] == s@[b - 1]);
        }
        lemma_trail_ws_char(t, k);
    }
    let mut r: Vec<char> = Vec::new();
    let mut i: usize = a;
    while i < b
        invariant
            a <= i <= b <= n,
            n == s@.len(),
            r@ == s@.subrange(a as int, i as int),
        decreases b - i,
    {
        r.push(s[i]);
        i = i + 1;
    }
    assert(r@ =~= trim(s@));
    r
}


/// The string whose characters are `v`.
#[verifier::external_body]
pub(crate) fn chars_to_string(v: &Vec<char>) -> (s: String)
    ensures
        s@ == v@,
{
    v.iter().collect()
}

/// A copy of `s[from..to]`.
pub fn slice_chars(s: &Vec<char>, from: usize, to: usize) -> (r: Vec<char>)
    requires
        from <= to <= s@.len(),
    ensures
        r@ == s@.subrange(from as int, to as int),
{
    let mut r: Vec<char> = Vec::new();
    let mut i: usize = from;
    while i < to
        invariant
            from <= i <= to <= s@.len(),
            r@ == s@.subrange(from as int, i as int),
        decreases to - i,
    {
        r.push(s[i]);
        i = i + 1;
    }
    assert(r@ =~= s@.subrange(from as int, to as int));
    r
}

/// Appends the characters of `t` to `r`.
pub fn append_chars(r: &mut Vec<char>, t: &Vec<char>)
    ensures
        final(r)@ == old(r)@ + t@,
{
    let mut i: usize = 0;
    while i < t.len()
        invariant
            i <= t@.len(),
            r@ == old(r)@ + t@.subrange(0, i as int),
        decreases t@.len() - i,
    {
        r.push(t[i]);
        i = i + 1;
        assert(r@ =~= old(r)@ + t@.subrange(0, i as int));
    }
    assert(t@.subrange(0, t@.len() as int) =~= t@);
}

/// Appends the characters of a string slice to `r`.
pub fn append_str(r: &mut Vec<char>, t: &str)
    ensures
        final(r)@ == old(r)@ + t@,
{
    let tc = str_chars(t);
    append_chars(r, &tc);
}

/// `s[i..i + pat.len()]` equals `pat`.
pub open spec fn occurs_at(s: Seq<char>, pat: Seq<char>, i: int) -> bool {
    0 <= i && i + pat.len() <= s.len() && s.subrange(i, i + pat.len()) == pat
}

/// `p` is a prefix of `s`.
pub open spec fn has_prefix(s: Seq<char>, p: Seq<char>) -> bool {
    occurs_at(s, p, 0)
}

/// `p` is a suffix of `s`.
pub open spec fn has_suffix(s: Seq<char>, p: Seq<char>) -> bool {
    occurs_at(s, p, s.len() - p.len())
}

/// `pat` occurs somewhere in `s`.
pub open spec fn contains_seq(s: Seq<char>, pat: Seq<char>) -> bool {
    exists|i: int| occurs_at(s, pat, i)
}

/// `c` occurs in `s`.
pub open spec fn contains_char(s: Seq<char>, c: char) -> bool {
    exists|i: int| 0 <= i < s.len() && s[i] == c
}

/// `i` is the first position at or after `from` where `pat` occurs in `s`.
pub open spec fn is_first_occurrence_from(s: Seq<char>, pat: Seq<char>, from: int, i: int) -> bool {
    from <= i && occurs_at(s, pat, i) && forall|j: int| from <= j < i ==> !occurs_at(s, pat, j)
}

/// The first position at or after `from` where `pat` occurs in `s`, as `str::find` reports it.
pub open spec fn first_occurrence_from(s: Seq<char>, pat: Seq<char>, from: int) -> Option<int> {
    if exists|i: int| from <= i && occurs_at(s, pat, i) {
        Some(choose|i: int| is_first_occurrence_from(s, pat, from, i))
    } else {
        None
    }
}

/// The first position where `pat` occurs in `s`.
pub open spec fn first_occurrence(s: Seq<char>, pat: Seq<char>) -> Option<int> {
    first_occurrence_from(s, pat, 0)
}

/// Decides whether `pat` occurs in `s` at position `i`.
pub fn matches_at(s: &Vec<char>, pat: &Vec<char>, i: usize) -> (r: bool)
    ensures
        r == occurs_at(s@, pat@, i as int),
{
    if i > s.len() || pat.len() > s.len() - i {
        return false;
    }
    let mut k: usize = 0;
    while k < pat.len()
        invariant
            i + pat@.len() <= s.len(),
            s@.len() == s.len(),
            k <= pat@.len(),
            forall|j: int| 0 <= j < k ==> s@[i + j] == pat@[j],
        decreases pat@.len() - k,
    {
        if s[i + k] != pat[k] {
            assert(s@.subrange(i as int, i + pat@.len())[k as int] != pat@[k as int]);
            return false;
        }
        k = k + 1;
    }
    assert(s@.subrange(i as int, i + pat@.len()) =~= pat@);
    true
}

/// Checks whether `s` starts with `p`.
pub fn starts_with(s: &Vec<char>, p: &Vec<char>) -> (r: bool)
    ensures
        r == has_prefix(s@, p@),
{
    matches_at(s, p, 0)
}

/// Checks whether `s` starts with the string slice `p`.
pub fn starts_with_str(s: &Vec<char>, p: &str) -> (r: bool)
    ensures
        r == has_prefix(s@, p@),
{
    let pc = str_chars(p);
    matches_at(s, &pc, 0)
}

/// Checks whether `s` ends with `p`.
pub fn ends_with(s: &Vec<char>, p: &Vec<char>) -> (r: bool)
    ensures
        r == has_suffix(s@, p@),
{
    if p.len() > s.len() {
        return false;
    }
    matches_at(s, p, s.len() - p.len())
}

/// Checks whether `s` ends with the string slice `p`.
pub fn ends_with_str(s: &Vec<char>, p: &str) -> (r: bool)
    ensures
        r == has_suffix(s@, p@),
{
    let pc = str_chars(p);
    ends_with(s, &pc)
}

/// Finds the first occurrence of `pat` in `s` at or after `from`.
pub fn find_from(s: &Vec<char>, pat: &Vec<char>, from: usize) -> (r: Option<usize>)
    ensures
        match r {
            Some(i) => first_occurrence_from(s@, pat@, from as int) == Some(i as int),
            None => first_occurrence_from(s@, pat@, from as int) is None,
        },
{
    if pat.len() > s.len() || from > s.len() - pat.len() {
        assert forall|i: int| from <= i implies !occurs_at(s@, pat@, i) by {}
        return None;
    }
    let last = s.len() - pat.len();
    let mut i: usize = from;
    while i <= last
        invariant
            last == s@.len() - pat@.len(),
            s@.len() == s.len(),
            from <= i <= last + 1,
            forall|j: int| from <= j < i ==> !occurs_at(s@, pat@, j),
        decreases last + 1 - i,
    {
        if matches_at(s, pat, i) {
            proof {
                assert(is_first_occurrence_from(s@, pat@, from as int, i as int));
                let c = choose|c: int| is_first_occurrence_from(s@, pat@, from as int, c);
                assert(c == i);
            }
            return Some(i);
        }
        if i == last {
            assert forall|j: int| from <= j implies !occurs_at(s@, pat@, j) by {
                if j <= last {
                } else {
                    assert(j + pat@.len() > s@.len());
                }
            }
            return None;
        }
        i = i + 1;
    }
    assert forall|j: int| from <= j implies !occurs_at(s@, pat@, j) by {
        if j < i {
        } else {
            assert(j + pat@.len() > s@.len());
        }
    }
    None
}

/// Finds the first occurrence of `pat` in `s`, like `str::find`.
pub fn find(s: &Vec<char>, pat: &Vec<char>) -> (r: Option<usize>)
    ensures
        match r {
            Some(i) => first_occurrence(s@, pat@) == Some(i as int),
            None => first_occurrence(s@, pat@) is None,
        },
{
    find_from(s, pat, 0)
}

/// Finds the first occurrence of the string slice `pat` in `s`.
pub fn find_str(s: &Vec<char>, pat: &str) -> (r: Option<usize>)
    ensures
        match r {
            Some(i) => first_occurrence(s@, pat@) == Some(i as int),
            None => first_occurrence(s@, pat@) is None,
        },
{
    let pc = str_chars(pat);
    find_from(s, &pc, 0)
}

/// Any occurrence at or after `from` implies a first one.
pub proof fn lemma_first_occurrence_exists(s: Seq<char>, pat: Seq<char>, from: int, i: int)
    requires
        from <= i,
        occurs_at(s, pat, i),
    ensures
        exists|k: int| is_first_occurrence_from(s, pat, from, k),
    decreases i - from,
{
    if exists|j: int| from <= j < i && occurs_at(s, pat, j) {
        let j = choose|j: int| from <= j < i && occurs_at(s, pat, j);
        lemma_first_occurrence_exists(s, pat, from, j);
    } else {
        assert(is_first_occurrence_from(s, pat, from, i));
    }
}

/// What `first_occurrence_from` returns, spelled out.
pub proof fn lemma_first_occurrence_some(s: Seq<char>, pat: Seq<char>, from: int, i: int)
    requires
        first_occurrence_from(s, pat, from) == Some(i),
    ensures
        is_first_occurrence_from(s, pat, from, i),
{
    let k = choose|k: int| from <= k && occurs_at(s, pat, k);
    lemma_first_occurrence_exists(s, pat, from, k);
}

/// `first_occurrence_from` is `None` exactly when nothing occurs at or after `from`.
pub proof fn lemma_first_occurrence_none(s: Seq<char>, pat: Seq<char>, from: int, j: int)
    requires
        first_occurrence_from(s, pat, from) is None,
        from <= j,
    ensures
        !occurs_at(s, pat, j),
{
}

/// Checks whether `pat` occurs in `s`.
pub fn contains(s: &Vec<char>, pat: &Vec<char>) -> (r: bool)
    ensures
        r == contains_seq(s@, pat@),
{
    match find_from(s, pat, 0) {
        Some(i) => {
            proof {
                lemma_first_occurrence_some(s@, pat@, 0, i as int);
            }
            true
        },
        None => {
            assert forall|j: int| !occurs_at(s@, pat@, j) by {
                if 0 <= j {
                }
            }
            false
        },
    }
}

/// Checks whether the string slice `pat` occurs in `s`.
pub fn contains_str(s: &Vec<char>, pat: &str) -> (r: bool)
    ensures
        r == contains_seq(s@, pat@),
{
    let pc = str_chars(pat);
    contains(s, &pc)
}

/// Checks whether the character `c` occurs in `s`.
pub fn contains_ch(s: &Vec<char>, c: char) -> (r: bool)
    ensures
        r == contains_char(s@, c),
{
    let mut i: usize = 0;
    while i < s.len()
        invariant
            i <= s@.len(),
            forall|j: int| 0 <= j < i ==> s@[j] != c,
        decreases s@.len() - i,
    {
        if s[i] == c {
            return true;
        }
        i = i + 1;
    }
    false
}

/// Number of occurrences of `c` in `s`.
pub open spec fn count_char(s: Seq<char>, c: char) -> nat
    decreases s.len(),
{
    if s.len() == 0 {
        0
    } else {
        count_char(s.drop_last(), c) + if s.last() == c {
            1nat
        } else {
            0nat
        }
    }
}

/// Counts the occurrences of `c` among the first `end` characters of `s`.
pub fn count_char_before(s: &Vec<char>, c: char, end: usize) -> (r: usize)
    requires
        end <= s@.len(),
    ensures
        r == count_char(s@.subrange(0, end as int), c),
{
    let mut i: usize = 0;
    let mut k: usize = 0;
    while i < end
        invariant
            i <= end <= s@.len(),
            k == count_char(s@.subrange(0, i as int), c),
            k <= i,
        decreases end - i,
    {
        assert(s@.subrange(0, i + 1).drop_last() =~= s@.subrange(0, i as int));
        if s[i] == c {
            k = k + 1;
        }
        i = i + 1;
    }
    k
}

/// Compares two character vectors.
pub fn chars_eq(a: &Vec<char>, b: &Vec<char>) -> (r: bool)
    ensures
        r == (a@ == b@),
{
    if a.len() != b.len() {
        return false;
    }
    let mut i: usize = 0;
    while i < a.len()
        invariant
            a@.len() == b@.len(),
            i <= a@.len(),
            forall|j: int| 0 <= j < i ==> a@[j] == b@[j],
        decreases a@.len() - i,
    {
        if a[i] != b[i] {
            return false;
        }
        i = i + 1;
    }
    assert(a@ =~= b@);
    true
}

/// Compares a character vector with a string slice.
pub fn chars_eq_str(a: &Vec<char>, b: &str) -> (r: bool)
    ensures
        r == (a@ == b@),
{
    let bc = str_chars(b);
    chars_eq(a, &bc)
}


/// `s` cut at every `'\n'`; the separators are dropped and the result has one
/// more piece than `s` has newlines.
pub open spec fn split_newlines(s: Seq<char>) -> Seq<Seq<char>>
    decreases s.len(),
{
    if s.len() == 0 {
        seq![Seq::<char>::empty()]
    } else {
        let r = split_newlines(s.drop_last());
        if s.last() == '\n' {
            r.push(Seq::<char>::empty())
        } else {
            r.update(r.len() - 1, r.last().push(s.last()))
        }
    }
}

pub proof fn lemma_split_newlines_nonempty(s: Seq<char>)
    ensures
        split_newlines(s).len() >= 1,
    decreases s.len(),
{
    if s.len() > 0 {
        lemma_split_newlines_nonempty(s.drop_last());
    }
}

/// A line terminated by `"\r\n"` loses its `'\r'`.
pub open spec fn strip_cr(p: Seq<char>) -> Seq<char> {
    if p.len() > 0 && p.last() == '\r' {
        p.drop_last()
    } else {
        p
    }
}

/// The lines of `s` as `str::lines` yields them: split at `"\n"` or `"\r\n"`,
/// terminators removed, and no empty last line after a final terminator.
pub open spec fn lines_of(s: Seq<char>) -> Seq<Seq<char>> {
    let raw = split_newlines(s);
    let n = raw.len();
    let body = Seq::new((n - 1) as nat, |i: int| strip_cr(raw[i]));
    if raw[n - 1].len() == 0 {
        body
    } else {
        body.push(raw[n - 1])
    }
}

/// The character sequences held by a vector of character vectors.
pub open spec fn vv(v: &Vec<Vec<char>>) -> Seq<Seq<char>> {
    v@.map_values(|x: Vec<char>| x@)
}

/// Splits text into lines, like `str::lines`.
pub fn split_lines(s: &Vec<char>) -> (r: Vec<Vec<char>>)
    ensures
        vv(&r) == lines_of(s@),
{
    let mut pieces: Vec<Vec<char>> = Vec::new();
    let mut cur: Vec<char> = Vec::new();
    let mut i: usize = 0;
    while i < s.len()
        invariant
            i <= s@.len(),
            vv(&pieces).push(cur@) == split_newlines(s@.subrange(0, i as int)),
        decreases s@.len() - i,
    {
        let ghost pre = s@.subrange(0, i as int);
        assert(s@.subrange(0, i + 1).drop_last() =~= pre);
        let c = s[i];
        if c == '\n' {
            let ghost old_pieces = vv(&pieces);
            let done = cur;
            pieces.push(done);
            cur = Vec::new();
            assert(vv(&pieces) =~= old_pieces.push(done@));
            assert(vv(&pieces).push(cur@) =~= split_newlines(pre).push(Seq::<char>::empty()));
        } else {
            let ghost old_cur = cur@;
            cur.push(c);
            assert(vv(&pieces).push(cur@) =~= split_newlines(pre).update(
                split_newlines(pre).len() - 1,
                old_cur.push(c),
            ));
        }
        i = i + 1;
    }
    assert(s@.subrange(0, s@.len() as int) =~= s@);
    let ghost raw = split_newlines(s@);
    let ghost n = raw.len();
    let mut r: Vec<Vec<char>> = Vec::new();
    let mut k: usize = 0;
    while k < pieces.len()
        invariant
            k <= pieces@.len(),
            vv(&pieces).push(cur@) == raw,
            n == pieces@.len() + 1,
            vv(&r) == Seq::new(k as nat, |j: int| strip_cr(raw[j])),
        decreases pieces@.len() - k,
    {
        assert(vv(&pieces)[k as int] == raw[k as int]);
        let p = &pieces[k];
        let mut q: Vec<char> = Vec::new();
        let m = if p.len() > 0 && p[p.len() - 1] == '\r' {
            p.len() - 1
        } else {
            p.len()
        };
        let mut j: usize = 0;
        while j < m
            invariant
                j <= m <= p@.len(),
                q@ == p@.subrange(0, j as int),
            decreases m - j,
        {
            q.push(p[j]);
            j = j + 1;
        }
        assert(q@ =~= strip_cr(raw[k as int]));
        let ghost old_r = vv(&r);
        r.push(q);
        assert(vv(&r) =~= old_r.push(strip_cr(raw[k as int])));
        k = k + 1;
        assert(vv(&r) =~= Seq::new(k as nat, |j: int| strip_cr(raw[j])));
    }
    assert(raw[n - 1] == cur@);
    if cur.len() > 0 {
        let ghost old_r = vv(&r);
        r.push(cur);
        assert(vv(&r) =~= old_r.push(raw[n - 1]));
    }
    r
}


/// What `char::is_alphanumeric` returns for `c` (Unicode `Alphabetic` or `Numeric`).
pub uninterp spec fn unicode_alphanumeric(c: char) -> bool;

/// Calls `char::is_alphanumeric`. Its documentation defines it as Unicode
/// `Alphabetic` or `Numeric`; for ASCII characters that is exactly the letters
/// and digits, which is all that is stated beyond the name of the result.
#[verifier::external_body]
pub(crate) fn char_is_alphanumeric(c: char) -> (r: bool)
    ensures
        r == unicode_alphanumeric(c),
        c <= '\u{7f}' ==> (r == (is_digit(c) || is_upper(c) || is_lower(c))),
{
    c.is_alphanumeric()
}

/// A character that continues an identifier for keyword-boundary checks.
pub open spec fn is_word_char(c: char) -> bool {
    unicode_alphanumeric(c) || c == '_'
}

/// Checks whether `c` is alphanumeric or `_`.
pub fn char_is_word(c: char) -> (r: bool)
    ensures
        r == is_word_char(c),
{
    c == '_' || char_is_alphanumeric(c)
}

/// True for the ASCII hexadecimal digits.
pub open spec fn is_hex_digit(c: char) -> bool {
    is_digit(c) || ('a' <= c && c <= 'f') || ('A' <= c && c <= 'F')
}

/// Checks whether `c` is an ASCII hexadecimal digit.
pub fn char_is_hex_digit(c: char) -> (r: bool)
    ensures
        r == is_hex_digit(c),
{
    char_is_digit(c) || ('a' <= c && c <= 'f') || ('A' <= c && c <= 'F')
}

/// `s` with every non-overlapping occurrence of a non-empty `from`, scanned
/// from position `i` left to right, replaced by `to`.
pub open spec fn replace_from(s: Seq<char>, from: Seq<char>, to: Seq<char>, i: int) -> Seq<char>
    decreases s.len() - i,
{
    if i < 0 || i >= s.len() || from.len() == 0 {
        Seq::empty()
    } else if occurs_at(s, from, i) {
        to + replace_from(s, from, to, i + from.len())
    } else {
        seq![s[i]] + replace_from(s, from, to, i + 1)
    }
}

/// `to` before every character of `s` and once more at the end: what
/// replacing the empty string gives.
pub open spec fn interleave(s: Seq<char>, to: Seq<char>) -> Seq<char>
    decreases s.len(),
{
    if s.len() == 0 {
        to
    } else {
        to + seq![s[0]] + interleave(s.drop_first(), to)
    }
}

/// `str::replace`: every non-overlapping occurrence of `from`, left to right,
/// replaced by `to`.
pub open spec fn replace_all(s: Seq<char>, from: Seq<char>, to: Seq<char>) -> Seq<char> {
    if from.len() == 0 {
        interleave(s, to)
    } else {
        replace_from(s, from, to, 0)
    }
}

proof fn lemma_interleave_skip(s: Seq<char>, to: Seq<char>, i: int)
    requires
        0 <= i < s.len(),
    ensures
        interleave(s.subrange(i, s.len() as int), to) == to + seq![s[i]] + interleave(s.subrange(i + 1, s.len() as int), to),
{
    let t = s.subrange(i, s.len() as int);
    assert(t.drop_first() =~= s.subrange(i + 1, s.len() as int));
}

/// Replaces every occurrence of `from` in `s` by `to`, like `str::replace`.
pub fn replace_all_chars(s: &Vec<char>, from: &Vec<char>, to: &Vec<char>) -> (r: Vec<char>)
    ensures
        r@ == replace_all(s@, from@, to@),
{
    let n = s.len();
    let mut out: Vec<char> = Vec::new();
    if from.len() == 0 {
        let mut i: usize = 0;
        assert(s@.subrange(0, n as int) =~= s@);
        assert(out@ + interleave(s@.subrange(0, n as int), to@) =~= replace_all(s@, from@, to@));
        while i < n
            invariant
                i <= n,
                n == s@.len(),
                from@.len() == 0,
                out@ + interleave(s@.subrange(i as int, n as int), to@) == replace_all(s@, from@, to@),
            decreases n - i,
        {
            proof {
                lemma_interleave_skip(s@, to@, i as int);
            }
            let ghost before = out@;
            append_chars(&mut out, to);
            out.push(s[i]);
            assert(out@ =~= before + to@ + seq![s@[i as int]]);
            assert(before + (to@ + seq![s@[i as int]] + interleave(s@.subrange(i + 1, n as int), to@))
                =~= out@ + interleave(s@.subrange(i + 1, n as int), to@));
            i = i + 1;
        }
        assert(s@.subrange(0, n as int) =~= s@);
        assert(s@.subrange(n as int, n as int).len() == 0);
        append_chars(&mut out, to);
        return out;
    }
    let mut i: usize = 0;
    while i < n
        invariant
            i <= n,
            n == s@.len(),
            from@.len() > 0,
            out@ + replace_from(s@, from@, to@, i as int) == replace_all(s@, from@, to@),
        decreases n - i,
    {
        let ghost before = out@;
        if matches_at(s, from, i) {
            append_chars(&mut out, to);
            assert(before + (to@ + replace_from(s@, from@, to@, i + from@.len())) =~= out@ + replace_from(s@, from@, to@, i + from@.len()));
            i = i + from.len();
        } else {
            out.push(s[i]);
            assert(before + (seq![s@[i as int]] + replace_from(s@, from@, to@, i + 1)) =~= out@ + replace_from(s@, from@, to@, i + 1));
            i = i + 1;
        }
    }
    assert(out@ + replace_from(s@, from@, to@, i as int) =~= out@);
    out
}

/// The words of `s` seen so far and the word being read, splitting at white space.
pub open spec fn words_state(s: Seq<char>) -> (Seq<Seq<char>>, Seq<char>)
    decreases s.len(),
{
    if s.len() == 0 {
        (Seq::empty(), Seq::empty())
    } else {
        let (ws, cur) = words_state(s.drop_last());
        if is_ws(s.last()) {
            if cur.len() > 0 {
                (ws.push(cur), Seq::empty())
            } else {
                (ws, Seq::empty())
            }
        } else {
            (ws, cur.push(s.last()))
        }
    }
}

/// The maximal runs of non-white-space characters of `s`, like `str::split_whitespace`.
pub open spec fn words(s: Seq<char>) -> Seq<Seq<char>> {
    let (ws, cur) = words_state(s);
    if cur.len() > 0 {
        ws.push(cur)
    } else {
        ws
    }
}

/// Splits `s` at white space, like `str::split_whitespace`.
pub fn split_whitespace(s: &Vec<char>) -> (r: Vec<Vec<char>>)
    ensures
        vv(&r) == words(s@),
{
    let mut ws: Vec<Vec<char>> = Vec::new();
    let mut cur: Vec<char> = Vec::new();
    let mut i: usize = 0;
    while i < s.len()
        invariant
            i <= s@.len(),
            (vv(&ws), cur@) == words_state(s@.subrange(0, i as int)),
        decreases s@.len() - i,
    {
        assert(s@.subrange(0, i + 1).drop_last() =~= s@.subrange(0, i as int));
        let c = s[i];
        if char_is_ws(c) {
            if cur.len() > 0 {
                let ghost old_ws = vv(&ws);
                let w = cur;
                ws.push(w);
                cur = Vec::new();
                assert(vv(&ws) =~= old_ws.push(w@));
            } else {
                cur = Vec::new();
            }
        } else {
            cur.push(c);
        }
        i = i + 1;
    }
    assert(s@.subrange(0, s@.len() as int) =~= s@);
    if cur.len() > 0 {
        let ghost old_ws = vv(&ws);
        ws.push(cur);
        assert(vv(&ws) =~= old_ws.push(cur@));
    }
    ws
}

/// The pieces of `ws` joined with `sep` between consecutive pieces.
pub open spec fn join_with(ws: Seq<Seq<char>>, sep: Seq<char>) -> Seq<char>
    decreases ws.len(),
{
    if ws.len() == 0 {
        Seq::empty()
    } else if ws.len() == 1 {
        ws[0]
    } else {
        join_with(ws.drop_last(), sep) + sep + ws.last()
    }
}

/// Joins the pieces with `sep`, like `[String]::join`.
pub fn join_chars(ws: &Vec<Vec<char>>, sep: &str) -> (r: Vec<char>)
    ensures
        r@ == join_with(vv(ws), sep@),
{
    let mut out: Vec<char> = Vec::new();
    let mut i: usize = 0;
    while i < ws.len()
        invariant
            i <= ws@.len(),
            out@ == join_with(vv(ws).subrange(0, i as int), sep@),
        decreases ws@.len() - i,
    {
        let ghost pre = vv(ws).subrange(0, i as int);
        let ghost nxt = vv(ws).subrange(0, i + 1);
        assert(nxt.drop_last() =~= pre);
        assert(nxt.last() == ws@[i as int]@);
        if i > 0 {
            append_str(&mut out, sep);
        } else {
            assert(pre.len() == 0);
        }
        append_chars(&mut out, &ws[i]);
        i = i + 1;
    }
    assert(vv(ws).subrange(0, ws@.len() as int) =~= vv(ws));
    out
}


/// `str::replacen(from, to, 1)`: the first occurrence of `from` replaced by `to`.
pub open spec fn replace_first(s: Seq<char>, from: Seq<char>, to: Seq<char>) -> Seq<char> {
    match first_occurrence(s, from) {
        Some(i) => s.subrange(0, i) + to + s.subrange(i + from.len(), s.len() as int),
        None => s,
    }
}

/// Replaces the first occurrence of `from` in `s` by `to`.
pub fn replace_first_chars(s: &Vec<char>, from: &Vec<char>, to: &Vec<char>) -> (r: Vec<char>)
    ensures
        r@ == replace_first(s@, from@, to@),
{
    match find(s, from) {
        Some(i) => {
            proof {
                lemma_first_occurrence_some(s@, from@, 0, i as int);
            }
            let fl = from.len();
            let sl = s.len();
            assert(i + fl <= sl);
            let mut out = slice_chars(s, 0, i);
            append_chars(&mut out, to);
            let rest = slice_chars(s, i + fl, sl);
            append_chars(&mut out, &rest);
            out
        },
        None => slice_chars(s, 0, s.len()),
    }
}


/// `s` cut at every `c`, like `str::split(c)`: one more piece than `s` has `c`s.
pub open spec fn split_by(s: Seq<char>, c: char) -> Seq<Seq<char>>
    decreases s.len(),
{
    if s.len() == 0 {
        seq![Seq::<char>::empty()]
    } else {
        let r = split_by(s.drop_last(), c);
        if s.last() == c {
            r.push(Seq::<char>::empty())
        } else {
            r.update(r.len() - 1, r.last().push(s.last()))
        }
    }
}

pub proof fn lemma_split_by_nonempty(s: Seq<char>, c: char)
    ensures
        split_by(s, c).len() >= 1,
    decreases s.len(),
{
    if s.len() > 0 {
        lemma_split_by_nonempty(s.drop_last(), c);
    }
}

/// Splits `s` at every `c`, like `str::split(c)`.
pub fn split_on(s: &Vec<char>, c: char) -> (r: Vec<Vec<char>>)
    ensures
        vv(&r) == split_by(s@, c),
{
    let mut pieces: Vec<Vec<char>> = Vec::new();
    let mut cur: Vec<char> = Vec::new();
    let mut i: usize = 0;
    while i < s.len()
        invariant
            i <= s@.len(),
            vv(&pieces).push(cur@) == split_by(s@.subrange(0, i as int), c),
        decreases s@.len() - i,
    {
        let ghost pre = s@.subrange(0, i as int);
        assert(s@.subrange(0, i + 1).drop_last() =~= pre);
        let x = s[i];
        if x == c {
            let ghost old_pieces = vv(&pieces);
            let done = cur;
            pieces.push(done);
            cur = Vec::new();
            assert(vv(&pieces) =~= old_pieces.push(done@));
            assert(vv(&pieces).push(cur@) =~= split_by(pre, c).push(Seq::<char>::empty()));
        } else {
            let ghost old_cur = cur@;
            cur.push(x);
            assert(vv(&pieces).push(cur@) =~= split_by(pre, c).update(split_by(pre, c).len() - 1, old_cur.push(x)));
        }
        i = i + 1;
    }
    assert(s@.subrange(0, s@.len() as int) =~= s@);
    let ghost op = vv(&pieces);
    pieces.push(cur);
    assert(vv(&pieces) =~= op.push(cur@));
    pieces
}

/// The position of the last `c` in `s`, like `str::rfind(c)`.
pub open spec fn last_index_of(s: Seq<char>, c: char) -> Option<int>
    decreases s.len(),
{
    if s.len() == 0 {
        None
    } else if s.last() == c {
        Some(s.len() - 1)
    } else {
        last_index_of(s.drop_last(), c)
    }
}

/// Finds the last `c` in `s`.
pub fn rfind_char(s: &Vec<char>, c: char) -> (r: Option<usize>)
    ensures
        match r {
            Some(i) => last_index_of(s@, c) == Some(i as int) && i < s@.len(),
            None => last_index_of(s@, c) is None,
        },
{
    let mut k: usize = s.len();
    assert(s@.subrange(0, k as int) =~= s@);
    while k > 0
        invariant
            k <= s@.len(),
            last_index_of(s@, c) == last_index_of(s@.subrange(0, k as int), c),
        decreases k,
    {
        let ghost t = s@.subrange(0, k as int);
        assert(t.drop_last() =~= s@.subrange(0, k - 1));
        if s[k - 1] == c {
            return Some(k - 1);
        }
        k = k - 1;
    }
    assert(s@.subrange(0, 0).len() == 0);
    None
}


proof fn lemma_lead_ws_props(s: Seq<char>)
    ensures
        lead_ws(s) <= s.len(),
        forall|j: int| 0 <= j < lead_ws(s) ==> is_ws(#[trigger] s[j]),
        lead_ws(s) < s.len() ==> !is_ws(s[lead_ws(s) as int]),
    decreases s.len(),
{
    if s.len() > 0 && is_ws(s[0]) {
        let t = s.drop_first();
        lemma_lead_ws_props(t);
        assert forall|j: int| 0 <= j < lead_ws(s) implies is_ws(#[trigger] s[j]) by {
            if j > 0 {
                assert(s[j] == t[j - 1]);
            }
        }
        if lead_ws(s) < s.len() {
            assert(s[lead_ws(s) as int] == t[lead_ws(t) as int]);
        }
    }
}

proof fn lemma_trail_ws_props(s: Seq<char>)
    ensures
        trail_ws(s) <= s.len(),
        trail_ws(s) < s.len() ==> !is_ws(s[s.len() - trail_ws(s) - 1]),
    decreases s.len(),
{
    if s.len() > 0 && is_ws(s.last()) {
        let t = s.drop_last();
        lemma_trail_ws_props(t);
        if trail_ws(s) < s.len() {
            assert(s[s.len() - trail_ws(s) - 1] == t[t.len() - trail_ws(t) - 1]);
        }
    }
}

/// Trimming twice is trimming once.
pub proof fn lemma_trim_idempotent(s: Seq<char>)
    ensures
        trim(trim(s)) == trim(s),
{
    lemma_lead_ws_props(s);
    let u = trim_start(s);
    lemma_trail_ws_props(u);
    let w = trim(s);
    if w.len() > 0 {
        assert(w[0] == u[0]);
        assert(u[0] == s[lead_ws(s) as int]);
        assert(w[w.len() - 1] == u[u.len() - trail_ws(u) - 1]);
    }
    lemma_lead_ws_char(w, 0);
    lemma_trail_ws_char(w, 0);
    assert(trim_start(w) =~= w);
    assert(trim(w) =~= w);
}


/// The number of bytes UTF-8 takes for `c`.
pub open spec fn utf8_width(c: char) -> nat {
    if (c as u32) < 0x80 {
        1
    } else if (c as u32) < 0x800 {
        2
    } else if (c as u32) < 0x10000 {
        3
    } else {
        4
    }
}

/// The number of bytes UTF-8 takes for `s`: what `str::len` reports.
pub open spec fn utf8_len(s: Seq<char>) -> nat
    decreases s.len(),
{
    if s.len() == 0 {
        0
    } else {
        utf8_len(s.drop_last()) + utf8_width(s.last())
    }
}

/// Counts the UTF-8 bytes of a character vector.
pub fn utf8_byte_len(s: &Vec<char>) -> (r: usize)
    requires
        utf8_len(s@) <= usize::MAX,
    ensures
        r == utf8_len(s@),
{
    let mut n: usize = 0;
    let mut i: usize = 0;
    while i < s.len()
        invariant
            i <= s@.len(),
            n == utf8_len(s@.take(i as int)),
            utf8_len(s@) <= usize::MAX,
        decreases s@.len() - i,
    {
        assert(s@.take(i + 1).drop_last() =~= s@.take(i as int));
        proof {
            lemma_utf8_len_prefix(s@, i + 1);
        }
        let c = s[i] as u32;
        let w: usize = if c < 0x80 { 1 } else if c < 0x800 { 2 } else if c < 0x10000 { 3 } else { 4 };
        n = n + w;
        i = i + 1;
    }
    assert(s@.take(s@.len() as int) =~= s@);
    n
}

/// A prefix takes no more bytes than the whole.
pub proof fn lemma_utf8_len_prefix(s: Seq<char>, k: int)
    requires
        0 <= k <= s.len(),
    ensures
        utf8_len(s.take(k)) <= utf8_len(s),
    decreases s.len() - k,
{
    if k < s.len() {
        lemma_utf8_len_prefix(s, k + 1);
        assert(s.take(k + 1).drop_last() =~= s.take(k));
    } else {
        assert(s.take(k) =~= s);
    }
}

} // verus!
