//! Character-level string helpers shared by the rest of the library.
//!
//! Strings are reasoned about through their view, a `Seq<char>`; the helpers
//! here convert between `String`/`&str` and `Vec<char>` and implement the
//! handful of `str` operations (trimming, searching, line splitting) that the
//! rest of the library needs, each with an exact specification.

use vstd::prelude::*;

verus! {

broadcast use vstd::string::group_string_axioms;

// ───────────────────────── conversions ─────────────────────────

/// Appends one character to a string (`String::push`).
#[verifier::external_body]
pub(crate) fn push_char(s: &mut String, c: char)
    ensures
        final(s)@ == old(s)@.push(c),
{
    s.push(c);
}

/// Returns the characters of `s`, in order.
pub fn chars_of(s: &str) -> (v: Vec<char>)
    ensures
        v@ == s@,
{
    let mut v: Vec<char> = Vec::new();
    for c in it: s.chars()
        invariant
            it.seq() == s@,
            v@ == it.seq().take(it.index() as int),
    {
        v.push(c);
    }
    v
}

/// Builds a string holding exactly the given characters.
pub fn string_of(v: &[char]) -> (s: String)
    ensures
        s@ == v@,
{
    let mut s = String::new();
    for i in 0..v.len()
        invariant
            s@ == v@.take(i as int),
    {
        push_char(&mut s, v[i]);
        assert(v@.take(i as int).push(v@[i as int]) == v@.take(i + 1));
    }
    assert(v@.take(v@.len() as int) == v@);
    s
}

/// Copies a string.
pub fn copy_string(s: &String) -> (r: String)
    ensures
        r@ == s@,
{
    s.clone()
}

/// Builds a string from a string literal or slice.
pub fn string_from(s: &str) -> (r: String)
    ensures
        r@ == s@,
{
    s.to_owned()
}

/// Returns `a` followed by `b`.
pub fn concat(a: &str, b: &str) -> (r: String)
    ensures
        r@ == a@ + b@,
{
    let mut v = chars_of(a);
    let w = chars_of(b);
    for i in 0..w.len()
        invariant
            v@ == a@ + w@.take(i as int),
    {
        v.push(w[i]);
        assert(w@.take(i as int).push(w@[i as int]) == w@.take(i + 1));
    }
    assert(w@.take(w@.len() as int) == w@);
    string_of(&v)
}

/// Whether two strings hold the same characters.
pub fn str_eq(a: &str, b: &str) -> (r: bool)
    ensures
        r == (a@ == b@),
{
    let v = chars_of(a);
    let w = chars_of(b);
    if v.len() != w.len() {
        return false;
    }
    for i in 0..v.len()
        invariant
            v@ == a@,
            w@ == b@,
            v@.len() == w@.len(),
            forall|j: int| 0 <= j < i ==> v@[j] == w@[j],
    {
        if v[i] != w[i] {
            return false;
        }
    }
    assert(v@ =~= w@);
    true
}

// ───────────────────────── whitespace and trimming ─────────────────────────

/// The Unicode `White_Space` characters, which `char::is_whitespace` reports.
pub open spec fn is_ws(c: char) -> bool {
    ||| ('\u{9}' <= c && c <= '\u{d}')
    ||| c == ' '
    ||| c == '\u{85}'
    ||| c == '\u{a0}'
    ||| c == '\u{1680}'
    ||| ('\u{2000}' <= c && c <= '\u{200a}')
    ||| c == '\u{2028}'
    ||| c == '\u{2029}'
    ||| c == '\u{202f}'
    ||| c == '\u{205f}'
    ||| c == '\u{3000}'
}

/// Whether `c` is a whitespace character (as `char::is_whitespace`).
pub fn is_whitespace(c: char) -> (r: bool)
    ensures
        r == is_ws(c),
{
    ('\u{9}' <= c && c <= '\u{d}') || c == ' ' || c == '\u{85}' || c == '\u{a0}' || c
        == '\u{1680}' || ('\u{2000}' <= c && c <= '\u{200a}') || c == '\u{2028}' || c
        == '\u{2029}' || c == '\u{202f}' || c == '\u{205f}' || c == '\u{3000}'
}

/// Every character of `s` is whitespace.
pub open spec fn all_ws(s: Seq<char>) -> bool {
    forall|i: int| 0 <= i < s.len() ==> is_ws(#[trigger] s[i])
}

/// Number of leading whitespace characters.
pub open spec fn leading_ws(s: Seq<char>) -> nat
    decreases s.len(),
{
    if s.len() > 0 && is_ws(s[0]) {
        1 + leading_ws(s.drop_first())
    } else {
        0
    }
}

/// Number of trailing whitespace characters.
pub open spec fn trailing_ws(s: Seq<char>) -> nat
    decreases s.len(),
{
    if s.len() > 0 && is_ws(s.last()) {
        1 + trailing_ws(s.drop_last())
    } else {
        0
    }
}

/// `s` with leading and trailing whitespace removed (as `str::trim`).
pub open spec fn trim_spec(s: Seq<char>) -> Seq<char> {
    let t = s.skip(leading_ws(s) as int);
    t.take(t.len() - trailing_ws(t))
}

proof fn lemma_leading_ws(s: Seq<char>, k: int)
    requires
        0 <= k <= s.len(),
        forall|j: int| 0 <= j < k ==> is_ws(#[trigger] s[j]),
        k == s.len() || !is_ws(s[k]),
    ensures
        leading_ws(s) == k,
    decreases k,
{
    if k > 0 {
        let t = s.drop_first();
        assert forall|j: int| 0 <= j < k - 1 implies is_ws(#[trigger] t[j]) by {
            assert(t[j] == s[j + 1]);
        }
        if k - 1 < t.len() {
            assert(t[k - 1] == s[k]);
        }
        lemma_leading_ws(t, k - 1);
    }
}

proof fn lemma_trailing_ws(s: Seq<char>, k: int)
    requires
        0 <= k <= s.len(),
        forall|j: int| s.len() - k <= j < s.len() ==> is_ws(#[trigger] s[j]),
        k == s.len() || !is_ws(s[s.len() - k - 1]),
    ensures
        trailing_ws(s) == k,
    decreases k,
{
    if k > 0 {
        let t = s.drop_last();
        assert forall|j: int| t.len() - (k - 1) <= j < t.len() implies is_ws(#[trigger] t[j]) by {
            assert(t[j] == s[j]);
        }
        if k - 1 < t.len() {
            assert(t[t.len() - (k - 1) - 1] == s[s.len() - k - 1]);
        }
        assert(is_ws(s[s.len() - 1]));
        lemma_trailing_ws(t, k - 1);
    }
}

/// Whether a sequence of characters is all whitespace agrees with its trim being empty.
pub proof fn lemma_trim_empty_iff_all_ws(s: Seq<char>)
    ensures
        (trim_spec(s).len() == 0) == all_ws(s),
{
    if all_ws(s) {
        lemma_leading_ws(s, s.len() as int);
        assert(s.skip(s.len() as int).len() == 0);
    } else {
        let i = choose|i: int| 0 <= i < s.len() && !is_ws(s[i]);
        let first = first_non_ws(s, i);
        lemma_leading_ws(s, first);
        let t = s.skip(first);
        assert(t[0] == s[first]);
        lemma_trailing_le(t);
        if trailing_ws(t) == t.len() {
            lemma_trailing_all(t);
            assert(is_ws(t[0]));
        }
    }
}

proof fn first_non_ws(s: Seq<char>, i: int) -> (f: int)
    requires
        0 <= i < s.len(),
        !is_ws(s[i]),
    ensures
        0 <= f <= i,
        !is_ws(s[f]),
        forall|j: int| 0 <= j < f ==> is_ws(#[trigger] s[j]),
    decreases i,
{
    if exists|j: int| 0 <= j < i && !is_ws(s[j]) {
        let j = choose|j: int| 0 <= j < i && !is_ws(s[j]);
        first_non_ws(s, j)
    } else {
        i
    }
}

proof fn lemma_trailing_le(s: Seq<char>)
    ensures
        trailing_ws(s) <= s.len(),
    decreases s.len(),
{
    if s.len() > 0 && is_ws(s.last()) {
        lemma_trailing_le(s.drop_last());
    }
}

proof fn lemma_trailing_all(s: Seq<char>)
    requires
        trailing_ws(s) == s.len(),
    ensures
        all_ws(s),
    decreases s.len(),
{
    if s.len() > 0 {
        let t = s.drop_last();
        lemma_trailing_all(t);
        assert forall|i: int| 0 <= i < s.len() implies is_ws(#[trigger] s[i]) by {
            if i < t.len() {
                assert(s[i] == t[i]);
            }
        }
    }
}

/// Whether `s` holds only whitespace (as `s.trim().is_empty()`).
pub fn is_blank(s: &[char]) -> (r: bool)
    ensures
        r == all_ws(s@),
        r == (trim_spec(s@).len() == 0),
{
    proof {
        lemma_trim_empty_iff_all_ws(s@);
    }
    for i in 0..s.len()
        invariant
            (trim_spec(s@).len() == 0) == all_ws(s@),
            forall|j: int| 0 <= j < i ==> is_ws(#[trigger] s@[j]),
    {
        if !is_whitespace(s[i]) {
            return false;
        }
    }
    true
}

/// `s` with leading and trailing whitespace removed (as `str::trim`).
pub fn trim(s: &[char]) -> (r: Vec<char>)
    ensures
        r@ == trim_spec(s@),
{
    let n = s.len();
    let mut a: usize = 0;
    while a < n && is_whitespace(s[a])
        invariant
            a <= n,
            n == s@.len(),
            forall|j: int| 0 <= j < a ==> is_ws(#[trigger] s@[j]),
        decreases n - a,
    {
        a = a + 1;
    }
    proof {
        lemma_leading_ws(s@, a as int);
    }
    let ghost t = s@.skip(a as int);
    let mut b: usize = n;
    while b > a && is_whitespace(s[b - 1])
        invariant
            a <= b <= n,
            n == s@.len(),
            t == s@.skip(a as int),
            forall|j: int| b <= j < n ==> is_ws(#[trigger] s@[j]),
        decreases b,
    {
        b = b - 1;
    }
    proof {
        let k = (n - b) as int;
        assert forall|j: int| t.len() - k <= j < t.len() implies is_ws(#[trigger] t[j]) by {
            assert(t[j] == s@[j + a]);
        }
        if k < t.len() {
            assert(t[t.len() - k - 1] == s@[b - 1]);
        }
        lemma_trailing_ws(t, k);
    }
    let mut r: Vec<char> = Vec::new();
    let mut i = a;
    while i < b
        invariant
            a <= i <= b <= n,
            n == s@.len(),
            r@ == s@.subrange(a as int, i as int),
        decreases b - i,
    {
        r.push(s[i]);
        assert(s@.subrange(a as int, i as int).push(s@[i as int]) == s@.subrange(
            a as int,
            i + 1,
        ));
        i = i + 1;
    }
    assert(r@ =~= trim_spec(s@));
    r
}

/// `s` without its leading whitespace (as `str::trim_start`).
pub fn trim_start(s: &[char]) -> (r: Vec<char>)
    ensures
        r@ == s@.skip(leading_ws(s@) as int),
{
    let n = s.len();
    let mut a: usize = 0;
    while a < n && is_whitespace(s[a])
        invariant
            a <= n,
            n == s@.len(),
            forall|j: int| 0 <= j < a ==> is_ws(#[trigger] s@[j]),
        decreases n - a,
    {
        a = a + 1;
    }
    proof {
        lemma_leading_ws(s@, a as int);
    }
    let r = slice(s, a, n);
    assert(r@ =~= s@.skip(a as int));
    r
}

// ───────────────────────── searching ─────────────────────────

/// `pat` occurs in `s` starting at index `i`.
pub open spec fn occurs_at(s: Seq<char>, pat: Seq<char>, i: int) -> bool {
    0 <= i && i + pat.len() <= s.len() && s.subrange(i, i + pat.len()) == pat
}

/// `pat` occurs somewhere in `s` (as `str::contains`).
pub open spec fn contains_spec(s: Seq<char>, pat: Seq<char>) -> bool {
    exists|i: int| occurs_at(s, pat, i)
}

/// Whether `pat` occurs in `s` at index `i`.
pub fn matches_at(s: &[char], pat: &[char], i: usize) -> (r: bool)
    ensures
        r == occurs_at(s@, pat@, i as int),
{
    if i > s.len() || pat.len() > s.len() - i {
        return false;
    }
    let mut j: usize = 0;
    while j < pat.len()
        invariant
            j <= pat.len(),
            i + pat.len() <= s.len(),
            forall|k: int| 0 <= k < j ==> s@[i + k] == pat@[k],
        decreases pat@.len() - j,
    {
        if s[i + j] != pat[j] {
            assert(s@.subrange(i as int, i + pat@.len())[j as int] != pat@[j as int]);
            return false;
        }
        j = j + 1;
    }
    assert(s@.subrange(i as int, i + pat@.len()) =~= pat@);
    true
}

/// The first index, from `i` on, where `pat` occurs in `s`; -1 when there is none.
pub open spec fn find_from(s: Seq<char>, pat: Seq<char>, i: int) -> int
    decreases s.len() - i,
{
    if i < 0 || i > s.len() {
        -1
    } else if occurs_at(s, pat, i) {
        i
    } else if i == s.len() {
        -1
    } else {
        find_from(s, pat, i + 1)
    }
}

/// The index of the first occurrence of `pat` in `s`, or -1 (as `str::find`).
pub open spec fn find_spec(s: Seq<char>, pat: Seq<char>) -> int {
    find_from(s, pat, 0)
}

/// Where the search for `pat` from `i` ends when it does not occur before `k`.
pub proof fn lemma_find_from(s: Seq<char>, pat: Seq<char>, i: int, k: int)
    requires
        0 <= i <= k <= s.len(),
        forall|j: int| i <= j < k ==> !occurs_at(s, pat, j),
    ensures
        occurs_at(s, pat, k) ==> find_from(s, pat, i) == k,
        k == s.len() && !occurs_at(s, pat, k) ==> find_from(s, pat, i) == -1,
    decreases k - i,
{
    if i < k {
        lemma_find_from(s, pat, i + 1, k);
    }
}

/// The index of the first occurrence of `pat` in `s` (as `str::find`).
pub fn find(s: &[char], pat: &[char]) -> (r: Option<usize>)
    ensures
        match r {
            Some(i) => occurs_at(s@, pat@, i as int) && forall|j: int|
                0 <= j < i ==> !occurs_at(s@, pat@, j),
            None => !contains_spec(s@, pat@),
        },
        match r {
            Some(i) => find_spec(s@, pat@) == i,
            None => find_spec(s@, pat@) == -1,
        },
{
    for i in 0..s.len()
        invariant
            forall|j: int| 0 <= j < i ==> !occurs_at(s@, pat@, j),
    {
        if matches_at(s, pat, i) {
            proof {
                lemma_find_from(s@, pat@, 0, i as int);
            }
            return Some(i);
        }
    }
    if matches_at(s, pat, s.len()) {
        proof {
            lemma_find_from(s@, pat@, 0, s@.len() as int);
        }
        return Some(s.len());
    }
    assert forall|j: int| !occurs_at(s@, pat@, j) by {
        if 0 <= j < s@.len() {
        }
    }
    proof {
        lemma_find_from(s@, pat@, 0, s@.len() as int);
    }
    None
}

/// Whether `pat` occurs in `s` (as `str::contains`).
pub fn contains(s: &[char], pat: &[char]) -> (r: bool)
    ensures
        r == contains_spec(s@, pat@),
{
    match find(s, pat) {
        Some(_) => true,
        None => false,
    }
}

/// Whether the character `c` occurs in `s`.
pub fn has_char(s: &[char], c: char) -> (r: bool)
    ensures
        r == s@.contains(c),
{
    for i in 0..s.len()
        invariant
            forall|j: int| 0 <= j < i ==> s@[j] != c,
    {
        if s[i] == c {
            return true;
        }
    }
    false
}

/// `i` is the index of the last occurrence of `c` in `s`.
pub open spec fn is_last_index(s: Seq<char>, c: char, i: int) -> bool {
    &&& 0 <= i < s.len()
    &&& s[i] == c
    &&& forall|j: int| i < j < s.len() ==> s[j] != c
}

/// The index of the last occurrence of `c` in `s`, or -1 when `c` does not occur.
pub open spec fn last_index_of(s: Seq<char>, c: char) -> int {
    if s.contains(c) {
        choose|i: int| is_last_index(s, c, i)
    } else {
        -1
    }
}

/// The last occurrence of a character is unique.
pub proof fn lemma_last_index(s: Seq<char>, c: char, i: int)
    requires
        is_last_index(s, c, i),
    ensures
        last_index_of(s, c) == i,
{
    assert(s.contains(c)) by {
        assert(s[i] == c);
    }
    let k = choose|k: int| is_last_index(s, c, k);
    assert(is_last_index(s, c, k));
    if k < i {
        assert(s[i] != c);
    } else if k > i {
        assert(s[k] != c);
    }
}

/// The index of the last occurrence of `c` in `s` (as `str::rfind` on a char).
pub fn rfind_char(s: &[char], c: char) -> (r: Option<usize>)
    ensures
        match r {
            Some(i) => is_last_index(s@, c, i as int) && i as int == last_index_of(s@, c),
            None => !s@.contains(c) && last_index_of(s@, c) == -1,
        },
{
    let mut i = s.len();
    while i > 0
        invariant
            i <= s@.len(),
            forall|j: int| i <= j < s@.len() ==> s@[j] != c,
        decreases i,
    {
        if s[i - 1] == c {
            proof {
                lemma_last_index(s@, c, i - 1);
            }
            return Some(i - 1);
        }
        i = i - 1;
    }
    assert(!s@.contains(c)) by {
        if s@.contains(c) {
            let k = choose|k: int| 0 <= k < s@.len() && s@[k] == c;
            assert(s@[k] != c);
        }
    }
    None
}

/// `s` starts with `pat`.
pub open spec fn starts_with_spec(s: Seq<char>, pat: Seq<char>) -> bool {
    pat.len() <= s.len() && s.take(pat.len() as int) == pat
}

/// Whether `s` starts with `pat`.
pub fn starts_with(s: &[char], pat: &[char]) -> (r: bool)
    ensures
        r == starts_with_spec(s@, pat@),
{
    let r = matches_at(s, pat, 0);
    proof {
        if pat@.len() <= s@.len() {
            assert(s@.subrange(0, pat@.len() as int) == s@.take(pat@.len() as int));
        }
    }
    r
}

/// The characters of `s` from index `a` up to (not including) `b`.
pub fn slice(s: &[char], a: usize, b: usize) -> (r: Vec<char>)
    requires
        a <= b <= s@.len(),
    ensures
        r@ == s@.subrange(a as int, b as int),
{
    let mut r: Vec<char> = Vec::new();
    let mut i = a;
    while i < b
        invariant
            a <= i <= b <= s@.len(),
            r@ == s@.subrange(a as int, i as int),
        decreases b - i,
    {
        r.push(s[i]);
        assert(s@.subrange(a as int, i as int).push(s@[i as int]) == s@.subrange(
            a as int,
            i + 1,
        ));
        i = i + 1;
    }
    r
}

/// Appends all of `b` to `v`.
pub fn extend(v: &mut Vec<char>, b: &[char])
    ensures
        final(v)@ == old(v)@ + b@,
{
    let ghost v0 = v@;
    for i in 0..b.len()
        invariant
            v@ == v0 + b@.take(i as int),
    {
        v.push(b[i]);
        assert(b@.take(i as int).push(b@[i as int]) == b@.take(i + 1));
    }
    assert(b@.take(b@.len() as int) == b@);
}

// ───────────────────────── lines ─────────────────────────

/// The pieces of `s` between `'\n'` characters (as `str::split('\n')`); always at
/// least one piece.
pub open spec fn split_nl(s: Seq<char>) -> Seq<Seq<char>>
    decreases s.len(),
{
    if s.len() == 0 {
        seq![Seq::<char>::empty()]
    } else {
        let rest = split_nl(s.drop_last());
        if s.last() == '\n' {
            rest.push(Seq::<char>::empty())
        } else {
            rest.update(rest.len() - 1, rest.last().push(s.last()))
        }
    }
}

/// A line with one trailing `'\r'` removed.
pub open spec fn strip_cr(l: Seq<char>) -> Seq<char> {
    if l.len() > 0 && l.last() == '\r' {
        l.drop_last()
    } else {
        l
    }
}

/// The lines of `s` as `str::lines` yields them: split on `'\n'`, no final
/// empty line, one trailing `'\r'` stripped from each line.
pub open spec fn lines_spec(s: Seq<char>) -> Seq<Seq<char>> {
    let p = split_nl(s);
    let q = if p.last().len() == 0 {
        p.drop_last()
    } else {
        p
    };
    q.map_values(|l: Seq<char>| strip_cr(l))
}

pub proof fn lemma_split_nl_len(s: Seq<char>)
    ensures
        split_nl(s).len() >= 1,
        split_nl(s).len() <= s.len() + 1,
    decreases s.len(),
{
    if s.len() > 0 {
        lemma_split_nl_len(s.drop_last());
    }
}

/// Splits `s` at every `'\n'` (as `str::split('\n')`).
pub fn split_lines(s: &[char]) -> (r: Vec<Vec<char>>)
    ensures
        r@.len() == split_nl(s@).len(),
        forall|i: int| 0 <= i < r@.len() ==> #[trigger] r@[i]@ == split_nl(s@)[i],
{
    let mut r: Vec<Vec<char>> = Vec::new();
    let mut cur: Vec<char> = Vec::new();
    for i in 0..s.len()
        invariant
            r@.len() + 1 == split_nl(s@.take(i as int)).len(),
            forall|k: int| 0 <= k < r@.len() ==> #[trigger] r@[k]@ == split_nl(
                s@.take(i as int),
            )[k],
            cur@ == split_nl(s@.take(i as int)).last(),
    {
        proof {
            lemma_split_nl_len(s@.take(i as int));
            assert(s@.take(i + 1).drop_last() == s@.take(i as int));
            assert(s@.take(i + 1).last() == s@[i as int]);
        }
        if s[i] == '\n' {
            let done = cur;
            r.push(done);
            cur = Vec::new();
        } else {
            cur.push(s[i]);
        }
    }
    proof {
        lemma_split_nl_len(s@);
        assert(s@.take(s@.len() as int) == s@);
    }
    r.push(cur);
    r
}

/// The lines of `s` (as `str::lines`).
pub fn lines(s: &[char]) -> (r: Vec<Vec<char>>)
    ensures
        r@.len() == lines_spec(s@).len(),
        forall|i: int| 0 <= i < r@.len() ==> #[trigger] r@[i]@ == lines_spec(s@)[i],
{
    let mut pieces = split_lines(s);
    proof {
        lemma_split_nl_len(s@);
    }
    let n = pieces.len();
    if pieces[n - 1].len() == 0 {
        pieces.pop();
    }
    let ghost q = pieces@;
    let mut r: Vec<Vec<char>> = Vec::new();
    for i in 0..pieces.len()
        invariant
            q == pieces@,
            q.len() == lines_spec(s@).len(),
            forall|k: int| 0 <= k < q.len() ==> #[trigger] strip_cr(q[k]@) == lines_spec(s@)[k],
            r@.len() == i,
            forall|k: int| 0 <= k < i ==> #[trigger] r@[k]@ == lines_spec(s@)[k],
    {
        let l = &pieces[i];
        let m = l.len();
        let line = if m > 0 && l[m - 1] == '\r' {
            slice(l, 0, m - 1)
        } else {
            slice(l, 0, m)
        };
        proof {
            assert(l@.subrange(0, m as int) == l@);
            assert(l@.subrange(0, m - 1) == l@.drop_last()) by {
                if m > 0 {
                    assert(l@.subrange(0, m - 1) =~= l@.drop_last());
                }
            }
            assert(strip_cr(q[i as int]@) == lines_spec(s@)[i as int]);
        }
        r.push(line);
    }
    r
}

/// Number of lines of `s` (as `str::lines().count()`).
pub fn line_count(s: &[char]) -> (n: usize)
    ensures
        n == lines_spec(s@).len(),
{
    let v = lines(s);
    v.len()
}

// ───────────────────────── case folding ─────────────────────────

/// The result of `str::to_lowercase` on a string with the given characters.
pub uninterp spec fn lowercase(s: Seq<char>) -> Seq<char>;

/// An ASCII character in lower case: `A` to `Z` become `a` to `z`, others stay.
pub open spec fn ascii_lower(c: char) -> char {
    if 'A' <= c && c <= 'Z' {
        ((c as u32) + 32) as char
    } else {
        c
    }
}

/// All characters of `s` are ASCII.
pub open spec fn all_ascii(s: Seq<char>) -> bool {
    forall|i: int| 0 <= i < s.len() ==> (s[i] as u32) < 128
}

/// Lowercases a string (`str::to_lowercase` of std, which maps each character
/// by Unicode's lowercase mapping). Stated: the result is a function of the
/// characters, and on ASCII text it lowercases the letters `A` to `Z` one for
/// one; left unsaid is the mapping of other characters.
#[verifier::external_body]
pub(crate) fn to_lowercase(s: &str) -> (r: String)
    ensures
        r@ == lowercase(s@),
        all_ascii(s@) ==> r@ == s@.map_values(|c: char| ascii_lower(c)),
{
    s.to_lowercase()
}

// ───────────────────────── single characters ─────────────────────────

/// Number of copies of `c` at the end of `s`.
pub open spec fn trailing_count(s: Seq<char>, c: char) -> nat
    decreases s.len(),
{
    if s.len() > 0 && s.last() == c {
        1 + trailing_count(s.drop_last(), c)
    } else {
        0
    }
}

/// `s` without the copies of `c` at its end (as `str::trim_end_matches` on a char).
pub open spec fn trim_end_spec(s: Seq<char>, c: char) -> Seq<char> {
    s.take(s.len() - trailing_count(s, c))
}

/// There are no more trailing copies of `c` than characters.
pub proof fn lemma_trailing_count_bound(s: Seq<char>, c: char)
    ensures
        trailing_count(s, c) <= s.len(),
    decreases s.len(),
{
    if s.len() > 0 && s.last() == c {
        lemma_trailing_count_bound(s.drop_last(), c);
    }
}

/// `s` without the copies of `c` at its end.
pub fn trim_end_char(s: &[char], c: char) -> (r: Vec<char>)
    ensures
        r@ == trim_end_spec(s@, c),
{
    let mut n = s.len();
    proof {
        lemma_trailing_count_bound(s@, c);
        assert(s@.take(n as int) =~= s@);
    }
    while n > 0 && s[n - 1] == c
        invariant
            n <= s@.len(),
            trailing_count(s@, c) <= s@.len(),
            s@.len() - trailing_count(s@, c) == n - trailing_count(s@.take(n as int), c),
        decreases n,
    {
        assert(s@.take(n as int).drop_last() =~= s@.take(n - 1));
        n = n - 1;
    }
    proof {
        if n > 0 {
            assert(trailing_count(s@.take(n as int), c) == 0);
        }
    }
    slice(s, 0, n)
}

/// The character `c`.
pub open spec fn is_char(c: char) -> spec_fn(char) -> bool {
    |x: char| x == c
}

/// Index of the first `c` in `s`, or -1 when there is none.
pub open spec fn index_of(s: Seq<char>, c: char) -> int {
    crate::seq_util::first_index(s, is_char(c))
}

/// The index of the first `c` in `s` (as `str::find` on a char).
pub fn find_char(s: &[char], c: char) -> (r: Option<usize>)
    ensures
        match r {
            Some(i) => i as int == index_of(s@, c) && i < s@.len() && s@[i as int] == c,
            None => index_of(s@, c) == -1 && !s@.contains(c),
        },
{
    let ghost p = is_char(c);
    for i in 0..s.len()
        invariant
            p == is_char(c),
            forall|j: int| 0 <= j < i ==> s@[j] != c,
    {
        if s[i] == c {
            proof {
                crate::seq_util::lemma_first_index(s@, p, i as int);
            }
            return Some(i);
        }
    }
    proof {
        crate::seq_util::lemma_first_index(s@, p, s@.len() as int);
        if s@.contains(c) {
            let k = choose|k: int| 0 <= k < s@.len() && s@[k] == c;
            assert(s@[k] != c);
        }
    }
    None
}

// ───────────────────────── UTF-8 lengths ─────────────────────────

/// The number of bytes `s` takes in UTF-8 (`str::len`).
pub open spec fn byte_len(s: Seq<char>) -> nat {
    vstd::utf8::encode_utf8(s).len()
}

/// The number of bytes `c` takes in UTF-8.
pub open spec fn utf8_width(c: char) -> nat {
    vstd::utf8::encode_scalar(c as u32).len()
}

/// The number of bytes `c` takes in UTF-8 (`char::len_utf8`).
pub fn utf8_width_of(c: char) -> (w: usize)
    ensures
        w == utf8_width(c),
        1 <= w <= 4,
{
    let v = c as u32;
    proof {
        vstd::utf8::char_is_scalar(c);
    }
    if v <= 0x7F {
        1
    } else if v <= 0x7FF {
        2
    } else if v <= 0xFFFF {
        3
    } else {
        4
    }
}

/// The UTF-8 length of a concatenation is the sum of the lengths.
pub proof fn lemma_byte_len_concat(a: Seq<char>, b: Seq<char>)
    ensures
        byte_len(a + b) == byte_len(a) + byte_len(b),
    decreases a.len(),
{
    if a.len() > 0 {
        assert((a + b).drop_first() =~= a.drop_first() + b);
        assert((a + b)[0] == a[0]);
        lemma_byte_len_concat(a.drop_first(), b);
    } else {
        assert(a + b =~= b);
    }
}

/// One more character adds its width.
pub proof fn lemma_byte_len_take(s: Seq<char>, k: int)
    requires
        0 <= k < s.len(),
    ensures
        byte_len(s.take(k + 1)) == byte_len(s.take(k)) + utf8_width(s[k]),
        utf8_width(s[k]) >= 1,
{
    let one = seq![s[k]];
    assert(s.take(k + 1) =~= s.take(k) + one);
    lemma_byte_len_concat(s.take(k), one);
    assert(one[0] == s[k]);
    assert(one.drop_first() =~= Seq::<char>::empty());
    assert(vstd::utf8::encode_utf8(one.drop_first()).len() == 0);
    assert(byte_len(one) == utf8_width(s[k]));
    vstd::utf8::char_is_scalar(s[k]);
}

/// Longer prefixes take more bytes.
pub proof fn lemma_byte_len_take_mono(s: Seq<char>, i: int, j: int)
    requires
        0 <= i < j <= s.len(),
    ensures
        byte_len(s.take(i)) < byte_len(s.take(j)),
    decreases j - i,
{
    lemma_byte_len_take(s, j - 1);
    if i < j - 1 {
        lemma_byte_len_take_mono(s, i, j - 1);
    }
}

/// The UTF-8 length of `s` when it is at most `limit`; `None` when it is more.
pub fn utf8_len_upto(s: &[char], limit: usize) -> (r: Option<usize>)
    ensures
        match r {
            Some(n) => n == byte_len(s@) && n <= limit,
            None => byte_len(s@) > limit,
        },
{
    let mut n: usize = 0;
    let mut i: usize = 0;
    assert(s@.take(0) =~= Seq::<char>::empty());
    while i < s.len()
        invariant
            i <= s@.len(),
            n <= limit,
            n == byte_len(s@.take(i as int)),
        decreases s@.len() - i,
    {
        let w = utf8_width_of(s[i]);
        proof {
            lemma_byte_len_take(s@, i as int);
        }
        if w > limit - n {
            proof {
                if i + 1 < s@.len() {
                    lemma_byte_len_take_mono(s@, i + 1, s@.len() as int);
                }
                assert(s@.take(s@.len() as int) =~= s@);
            }
            return None;
        }
        n = n + w;
        i = i + 1;
    }
    assert(s@.take(i as int) =~= s@);
    Some(n)
}

/// `k` characters of `s` are the most that fit in `b` bytes.
pub open spec fn fits_most(s: Seq<char>, b: int, k: int) -> bool {
    &&& 0 <= k <= s.len()
    &&& byte_len(s.take(k)) <= b
    &&& (k == s.len() || byte_len(s.take(k + 1)) > b)
}

/// The longest prefix of `s` that fits in `b` bytes: `s` cut at the last
/// character boundary at or before byte `b`.
pub open spec fn within_bytes(s: Seq<char>, b: int) -> Seq<char> {
    s.take(choose|k: int| fits_most(s, b, k))
}

/// The prefix that fits in `b` bytes is the one of `k` characters, when `k`
/// characters are the most that fit.
pub proof fn lemma_within_bytes(s: Seq<char>, b: int, k: int)
    requires
        fits_most(s, b, k),
    ensures
        within_bytes(s, b) == s.take(k),
{
    let c = choose|j: int| fits_most(s, b, j);
    assert(fits_most(s, b, c));
    if c < k {
        if c + 1 < k {
            lemma_byte_len_take_mono(s, c + 1, k);
        }
        assert(false);
    } else if c > k {
        if k + 1 < c {
            lemma_byte_len_take_mono(s, k + 1, c);
        }
        assert(false);
    }
}

/// The longest prefix of `s` that fits in `b` bytes (see `within_bytes`).
pub fn cut_within(s: &[char], b: usize) -> (r: Vec<char>)
    ensures
        r@ == within_bytes(s@, b as int),
        byte_len(r@) <= b,
{
    let mut n: usize = 0;
    let mut i: usize = 0;
    assert(s@.take(0) =~= Seq::<char>::empty());
    while i < s.len()
        invariant_except_break
            i <= s@.len(),
            n <= b,
            n == byte_len(s@.take(i as int)),
        ensures
            fits_most(s@, b as int, i as int),
        decreases s@.len() - i,
    {
        let w = utf8_width_of(s[i]);
        proof {
            lemma_byte_len_take(s@, i as int);
        }
        if w > b - n {
            break;
        }
        n = n + w;
        i = i + 1;
    }
    proof {
        lemma_within_bytes(s@, b as int, i as int);
    }
    let r = slice(s, 0, i);
    assert(r@ =~= s@.take(i as int));
    r
}

} // verus!

verus! {

// ───────────────────────── words ─────────────────────────

/// Number of leading characters of `s` that are not whitespace.
pub open spec fn word_len(s: Seq<char>) -> nat
    decreases s.len(),
{
    if s.len() > 0 && !is_ws(s[0]) {
        1 + word_len(s.drop_first())
    } else {
        0
    }
}

/// The whitespace-separated words of `s` (as `str::split_whitespace`).
pub open spec fn words(s: Seq<char>) -> Seq<Seq<char>>
    decreases s.len(),
{
    if s.len() == 0 {
        Seq::empty()
    } else if is_ws(s[0]) {
        words(s.drop_first())
    } else {
        let k = word_len(s);
        if 0 < k <= s.len() {
            seq![s.take(k as int)] + words(s.skip(k as int))
        } else {
            Seq::empty()
        }
    }
}

pub proof fn lemma_word_len(s: Seq<char>, k: int)
    requires
        0 <= k <= s.len(),
        forall|j: int| 0 <= j < k ==> !is_ws(#[trigger] s[j]),
        k == s.len() || is_ws(s[k]),
    ensures
        word_len(s) == k,
    decreases k,
{
    if k > 0 {
        let t = s.drop_first();
        assert forall|j: int| 0 <= j < k - 1 implies !is_ws(#[trigger] t[j]) by {
            assert(t[j] == s[j + 1]);
        }
        if k - 1 < t.len() {
            assert(t[k - 1] == s[k]);
        }
        lemma_word_len(t, k - 1);
    }
}

/// Splits `s` into its whitespace-separated words (as `str::split_whitespace`).
pub fn split_whitespace(s: &[char]) -> (r: Vec<Vec<char>>)
    ensures
        r@.map_values(|w: Vec<char>| w@) == words(s@),
{
    let n = s.len();
    let mut r: Vec<Vec<char>> = Vec::new();
    let mut i: usize = 0;
    assert(s@.skip(0) == s@);
    while i < n
        invariant
            n == s@.len(),
            i <= n,
            r@.map_values(|w: Vec<char>| w@) + words(s@.skip(i as int)) == words(s@),
        decreases n - i,
    {
        let ghost rest = s@.skip(i as int);
        if is_whitespace(s[i]) {
            assert(rest.drop_first() == s@.skip(i + 1));
            i = i + 1;
        } else {
            let mut k = i;
            while k < n && !is_whitespace(s[k])
                invariant
                    n == s@.len(),
                    i <= k <= n,
                    forall|j: int| i <= j < k ==> !is_ws(#[trigger] s@[j]),
                decreases n - k,
            {
                k = k + 1;
            }
            proof {
                assert forall|j: int| 0 <= j < k - i implies !is_ws(#[trigger] rest[j]) by {
                    assert(rest[j] == s@[i + j]);
                }
                if k < n {
                    assert(rest[k - i] == s@[k as int]);
                }
                lemma_word_len(rest, k - i);
                assert(rest.skip(k - i) == s@.skip(k as int));
            }
            let w = slice(s, i, k);
            let ghost prev = r@;
            r.push(w);
            proof {
                assert(rest.take(k - i) == s@.subrange(i as int, k as int));
                assert(r@.map_values(|w: Vec<char>| w@) =~= prev.map_values(|w: Vec<char>| w@).push(
                    s@.subrange(i as int, k as int),
                ));
                assert(words(rest) == seq![rest.take(k - i)] + words(rest.skip(k - i)));
            }
            i = k;
        }
    }
    assert(words(s@.skip(n as int)) == Seq::<Seq<char>>::empty());
    r
}
} // verus!
