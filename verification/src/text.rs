//! Character-sequence helpers shared by the parsers: whitespace, trimming,
//! line splitting, tokenizing, ASCII case folding and decimal parsing. Each
//! executable helper is specified by a spec function over `Seq<char>` that
//! states the same notion as the corresponding `str` method.
use vstd::prelude::*;

verus! {

/// `String::push` appends one character.
pub assume_specification[ String::push ](s: &mut String, ch: char)
    ensures
        final(s)@ == old(s)@.push(ch),
;

/// `String::pop` removes and returns the last character, or returns `None`
/// and leaves the string unchanged when it is empty.
pub assume_specification[ String::pop ](s: &mut String) -> (r: Option<char>)
    ensures
        match r {
            Some(c) => old(s)@.len() > 0 && c == old(s)@.last() && final(s)@ == old(s)@.drop_last(),
            None => old(s)@.len() == 0 && final(s)@ == old(s)@,
        },
;

/// The characters of `s`, in order.
pub fn to_chars(s: &str) -> (r: Vec<char>)
    ensures
        r@ == s@,
{
    let mut out: Vec<char> = Vec::new();
    for c in it: s.chars()
        invariant
            out@ == it.seq().take(it.index() as int),
    {
        out.push(c);
    }
    out
}

/// A string holding exactly the characters of `v`.
pub fn from_chars(v: &[char]) -> (r: String)
    ensures
        r@ == v@,
{
    let mut out = String::new();
    let mut i: usize = 0;
    while i < v.len()
        invariant
            i <= v@.len(),
            out@ == v@.take(i as int),
        decreases v@.len() - i,
    {
        out.push(v[i]);
        i = i + 1;
        assert(v@.take(i as int) == v@.take((i - 1) as int).push(v@[i - 1]));
    }
    assert(v@.take(v@.len() as int) == v@);
    out
}

/// The characters `v[lo..hi]` as a new vector.
pub fn copy_range(v: &[char], lo: usize, hi: usize) -> (r: Vec<char>)
    requires
        lo <= hi <= v@.len(),
    ensures
        r@ == v@.subrange(lo as int, hi as int),
{
    let mut out: Vec<char> = Vec::new();
    let mut i = lo;
    while i < hi
        invariant
            lo <= i <= hi <= v@.len(),
            out@ == v@.subrange(lo as int, i as int),
        decreases hi - i,
    {
        out.push(v[i]);
        i = i + 1;
        assert(v@.subrange(lo as int, i as int) == v@.subrange(lo as int, (i - 1) as int).push(
            v@[i - 1],
        ));
    }
    out
}

/// Append the characters of `src` to `dst`.
pub fn push_all(dst: &mut Vec<char>, src: &[char])
    ensures
        final(dst)@ == old(dst)@ + src@,
{
    let mut i: usize = 0;
    while i < src.len()
        invariant
            i <= src@.len(),
            dst@ == old(dst)@ + src@.take(i as int),
        decreases src@.len() - i,
    {
        dst.push(src[i]);
        i = i + 1;
        assert(src@.take(i as int) == src@.take((i - 1) as int).push(src@[i - 1]));
    }
    assert(src@.take(src@.len() as int) == src@);
}

/// Append the characters of a string to `dst`.
pub fn push_str_chars(dst: &mut Vec<char>, s: &str)
    ensures
        final(dst)@ == old(dst)@ + s@,
{
    let cs = to_chars(s);
    push_all(dst, cs.as_slice());
}

/// Whether two character sequences are equal.
pub fn chars_eq(a: &[char], b: &[char]) -> (r: bool)
    ensures
        r == (a@ == b@),
{
    if a.len() != b.len() {
        return false;
    }
    let mut i: usize = 0;
    while i < a.len()
        invariant
            a@.len() == b@.len(),
            i <= a@.len(),
            forall|j: int| 0 <= j < i ==> a@[j] == b@[j],
        decreases a@.len() - i,
    {
        if a[i] != b[i] {
            return false;
        }
        i = i + 1;
    }
    assert(a@ =~= b@);
    true
}

/// Whether two strings hold the same characters.
pub fn str_eq(a: &str, b: &str) -> (r: bool)
    ensures
        r == (a@ == b@),
{
    let x = to_chars(a);
    let y = to_chars(b);
    chars_eq(x.as_slice(), y.as_slice())
}

// ---------------------------------------------------------------------------
// Whitespace
// ---------------------------------------------------------------------------
/// Unicode `White_Space`, the property that `char::is_whitespace` tests.
pub open spec fn is_ws(c: char) -> bool {
    ||| c == ' '
    ||| ('\t' <= c && c <= '\r')
    ||| c == '\u{85}'
    ||| c == '\u{a0}'
    ||| c == '\u{1680}'
    ||| ('\u{2000}' <= c && c <= '\u{200a}')
    ||| c == '\u{2028}'
    ||| c == '\u{2029}'
    ||| c == '\u{202f}'
    ||| c == '\u{205f}'
    ||| c == '\u{3000}'
}

/// Executable `White_Space` test.
pub fn is_whitespace(c: char) -> (r: bool)
    ensures
        r == is_ws(c),
{
    c == ' ' || ('\t' <= c && c <= '\r') || c == '\u{85}' || c == '\u{a0}' || c == '\u{1680}'
        || ('\u{2000}' <= c && c <= '\u{200a}') || c == '\u{2028}' || c == '\u{2029}' || c
        == '\u{202f}' || c == '\u{205f}' || c == '\u{3000}'
}

/// Number of leading whitespace characters.
pub open spec fn lead_ws(s: Seq<char>) -> nat
    decreases s.len(),
{
    if s.len() == 0 {
        0
    } else if is_ws(s[0]) {
        1 + lead_ws(s.drop_first())
    } else {
        0
    }
}

/// Number of trailing whitespace characters.
pub open spec fn trail_ws(s: Seq<char>) -> nat
    decreases s.len(),
{
    if s.len() == 0 {
        0
    } else if is_ws(s.last()) {
        1 + trail_ws(s.drop_last())
    } else {
        0
    }
}

/// `str::trim_start`.
pub open spec fn trim_start(s: Seq<char>) -> Seq<char> {
    s.skip(lead_ws(s) as int)
}

/// `str::trim_end`.
pub open spec fn trim_end(s: Seq<char>) -> Seq<char> {
    s.take(s.len() - trail_ws(s))
}

/// `str::trim`.
pub open spec fn trim(s: Seq<char>) -> Seq<char> {
    trim_end(trim_start(s))
}

pub proof fn lemma_lead_ws(s: Seq<char>)
    ensures
        lead_ws(s) <= s.len(),
        forall|j: int| 0 <= j < lead_ws(s) ==> is_ws(#[trigger] s[j]),
        lead_ws(s) < s.len() ==> !is_ws(s[lead_ws(s) as int]),
    decreases s.len(),
{
    if s.len() > 0 && is_ws(s[0]) {
        lemma_lead_ws(s.drop_first());
        assert forall|j: int| 0 <= j < lead_ws(s) implies is_ws(#[trigger] s[j]) by {
            if j > 0 {
                assert(s[j] == s.drop_first()[j - 1]);
            }
        }
    }
}

pub proof fn lemma_trail_ws(s: Seq<char>)
    ensures
        trail_ws(s) <= s.len(),
        forall|j: int| s.len() - trail_ws(s) <= j < s.len() ==> is_ws(#[trigger] s[j]),
        trail_ws(s) < s.len() ==> !is_ws(s[s.len() - trail_ws(s) - 1]),
    decreases s.len(),
{
    if s.len() > 0 && is_ws(s.last()) {
        lemma_trail_ws(s.drop_last());
        assert forall|j: int| s.len() - trail_ws(s) <= j < s.len() implies is_ws(
            #[trigger] s[j],
        ) by {
            if j < s.len() - 1 {
                assert(s[j] == s.drop_last()[j]);
            }
        }
    }
}

/// A prefix of whitespace characters followed by a non-whitespace one (or the
/// end) has exactly that many leading whitespace characters.
pub proof fn lemma_lead_ws_at(s: Seq<char>, i: int)
    requires
        0 <= i <= s.len(),
        forall|j: int| 0 <= j < i ==> is_ws(#[trigger] s[j]),
        i < s.len() ==> !is_ws(s[i]),
    ensures
        lead_ws(s) == i,
    decreases s.len(),
{
    if i > 0 {
        assert forall|j: int| 0 <= j < i - 1 implies is_ws(#[trigger] s.drop_first()[j]) by {
            assert(s.drop_first()[j] == s[j + 1]);
        }
        lemma_lead_ws_at(s.drop_first(), i - 1);
    }
}

pub proof fn lemma_trail_ws_at(s: Seq<char>, i: int)
    requires
        0 <= i <= s.len(),
        forall|j: int| i <= j < s.len() ==> is_ws(#[trigger] s[j]),
        i > 0 ==> !is_ws(s[i - 1]),
    ensures
        trail_ws(s) == s.len() - i,
    decreases s.len(),
{
    if i < s.len() {
        assert forall|j: int| i <= j < s.drop_last().len() implies is_ws(
            #[trigger] s.drop_last()[j],
        ) by {
            assert(s.drop_last()[j] == s[j]);
        }
        lemma_trail_ws_at(s.drop_last(), i);
    }
}

/// Trimming twice is trimming once.
pub proof fn lemma_trim_idempotent(s: Seq<char>)
    ensures
        trim(trim(s)) == trim(s),
{
    let u = trim_start(s);
    let t = trim(s);
    lemma_lead_ws(s);
    lemma_trail_ws(u);
    if t.len() > 0 {
        assert(t[0] == u[0]);
        assert(u[0] == s[lead_ws(s) as int]);
        assert(t[t.len() - 1] == u[u.len() - trail_ws(u) - 1]);
    }
    lemma_lead_ws_at(t, 0);
    assert(trim_start(t) =~= t);
    lemma_trail_ws_at(t, t.len() as int);
    assert(trim_end(t) =~= t);
}

/// Bounds `(a, b)` such that `v[a..b]` is `trim(v[lo..hi])`.
pub fn trim_bounds(v: &[char], lo: usize, hi: usize) -> (r: (usize, usize))
    requires
        lo <= hi <= v@.len(),
    ensures
        lo <= r.0 <= r.1 <= hi,
        v@.subrange(r.0 as int, r.1 as int) == trim(v@.subrange(lo as int, hi as int)),
        r.0 as int == lo + lead_ws(v@.subrange(lo as int, hi as int)),
{
    let ghost s = v@.subrange(lo as int, hi as int);
    let mut a = lo;
    while a < hi && is_whitespace(v[a])
        invariant
            lo <= a <= hi <= v@.len(),
            s == v@.subrange(lo as int, hi as int),
            forall|j: int| lo <= j < a ==> is_ws(#[trigger] v@[j]),
        decreases hi - a,
    {
        a = a + 1;
    }
    proof {
        assert forall|j: int| 0 <= j < a - lo implies is_ws(#[trigger] s[j]) by {
            assert(s[j] == v@[lo + j]);
        }
        lemma_lead_ws_at(s, a - lo);
    }
    let ghost t = trim_start(s);
    assert(t == v@.subrange(a as int, hi as int));
    let mut b = hi;
    while b > a && is_whitespace(v[b - 1])
        invariant
            lo <= a <= b <= hi <= v@.len(),
            forall|j: int| b <= j < hi ==> is_ws(#[trigger] v@[j]),
        decreases b - a,
    {
        b = b - 1;
    }
    proof {
        assert forall|j: int| b - a <= j < t.len() implies is_ws(#[trigger] t[j]) by {
            assert(t[j] == v@[a + j]);
        }
        lemma_trail_ws_at(t, b - a);
        assert(v@.subrange(a as int, b as int) == t.take(t.len() - trail_ws(t)));
    }
    (a, b)
}

/// `s.trim()` as a character vector.
pub fn trim_chars(v: &[char]) -> (r: Vec<char>)
    ensures
        r@ == trim(v@),
{
    let (a, b) = trim_bounds(v, 0, v.len());
    assert(v@.subrange(0, v@.len() as int) == v@);
    copy_range(v, a, b)
}

/// `s.trim_start()` as a character vector.
pub fn trim_start_chars(v: &[char]) -> (r: Vec<char>)
    ensures
        r@ == trim_start(v@),
{
    let mut a: usize = 0;
    while a < v.len() && is_whitespace(v[a])
        invariant
            a <= v@.len(),
            forall|j: int| 0 <= j < a ==> is_ws(#[trigger] v@[j]),
        decreases v@.len() - a,
    {
        a = a + 1;
    }
    proof {
        lemma_lead_ws_at(v@, a as int);
    }
    copy_range(v, a, v.len())
}

/// `s.trim_end()` as a character vector.
pub fn trim_end_chars(v: &[char]) -> (r: Vec<char>)
    ensures
        r@ == trim_end(v@),
{
    let mut b = v.len();
    while b > 0 && is_whitespace(v[b - 1])
        invariant
            b <= v@.len(),
            forall|j: int| b <= j < v@.len() ==> is_ws(#[trigger] v@[j]),
        decreases b,
    {
        b = b - 1;
    }
    proof {
        lemma_trail_ws_at(v@, b as int);
    }
    copy_range(v, 0, b)
}

// ---------------------------------------------------------------------------
// Searching
// ---------------------------------------------------------------------------
/// Index of the first `c` in `s`, or `s.len()` when absent.
pub open spec fn pos_of(s: Seq<char>, c: char) -> nat
    decreases s.len(),
{
    if s.len() == 0 {
        0
    } else if s[0] == c {
        0
    } else {
        1 + pos_of(s.drop_first(), c)
    }
}

pub proof fn lemma_pos_of(s: Seq<char>, c: char)
    ensures
        pos_of(s, c) <= s.len(),
        forall|j: int| 0 <= j < pos_of(s, c) ==> #[trigger] s[j] != c,
        pos_of(s, c) < s.len() ==> s[pos_of(s, c) as int] == c,
    decreases s.len(),
{
    if s.len() > 0 && s[0] != c {
        lemma_pos_of(s.drop_first(), c);
        assert forall|j: int| 0 <= j < pos_of(s, c) implies #[trigger] s[j] != c by {
            if j > 0 {
                assert(s[j] == s.drop_first()[j - 1]);
            }
        }
    }
}

pub proof fn lemma_pos_of_at(s: Seq<char>, c: char, i: int)
    requires
        0 <= i <= s.len(),
        forall|j: int| 0 <= j < i ==> #[trigger] s[j] != c,
        i < s.len() ==> s[i] == c,
    ensures
        pos_of(s, c) == i,
    decreases s.len(),
{
    if i > 0 {
        assert forall|j: int| 0 <= j < i - 1 implies #[trigger] s.drop_first()[j] != c by {
            assert(s.drop_first()[j] == s[j + 1]);
        }
        lemma_pos_of_at(s.drop_first(), c, i - 1);
    }
}

/// Index of the first `c` in `v[lo..]` (relative to `v`), or `v.len()`.
pub fn find_char(v: &[char], lo: usize, c: char) -> (r: usize)
    requires
        lo <= v@.len(),
    ensures
        lo <= r <= v@.len(),
        r - lo == pos_of(v@.skip(lo as int), c),
{
    let mut i = lo;
    while i < v.len() && v[i] != c
        invariant
            lo <= i <= v@.len(),
            forall|j: int| lo <= j < i ==> #[trigger] v@[j] != c,
        decreases v@.len() - i,
    {
        i = i + 1;
    }
    proof {
        let s = v@.skip(lo as int);
        assert forall|j: int| 0 <= j < i - lo implies #[trigger] s[j] != c by {
            assert(s[j] == v@[lo + j]);
        }
        lemma_pos_of_at(s, c, i - lo);
    }
    i
}

/// Whether `s` starts with `p`.
pub open spec fn starts_with(s: Seq<char>, p: Seq<char>) -> bool {
    p.len() <= s.len() && s.take(p.len() as int) == p
}

/// Whether `s` ends with `p`.
pub open spec fn ends_with(s: Seq<char>, p: Seq<char>) -> bool {
    p.len() <= s.len() && s.skip(s.len() - p.len()) == p
}

/// Whether `p` occurs in `s` at position `i`.
pub open spec fn occurs_at(s: Seq<char>, p: Seq<char>, i: int) -> bool {
    0 <= i && i + p.len() <= s.len() && s.subrange(i, i + p.len()) == p
}

/// Whether `p` occurs anywhere in `s` (`str::contains`).
pub open spec fn contains_seq(s: Seq<char>, p: Seq<char>) -> bool {
    exists|i: int| occurs_at(s, p, i)
}

/// Whether `p` occurs in `s` at position `i` (executable).
pub fn occurs_at_exec(s: &[char], p: &[char], i: usize) -> (r: bool)
    ensures
        r == occurs_at(s@, p@, i as int),
{
    if i > s.len() || p.len() > s.len() - i {
        return false;
    }
    let mut k: usize = 0;
    while k < p.len()
        invariant
            s.len() == s@.len(),
            i + p@.len() <= s@.len(),
            k <= p@.len(),
            forall|j: int| 0 <= j < k ==> s@[i + j] == p@[j],
        decreases p@.len() - k,
    {
        assert(i + k < s@.len());
        if s[i + k] != p[k] {
            assert(s@.subrange(i as int, i + p@.len())[k as int] != p@[k as int]);
            return false;
        }
        k = k + 1;
    }
    assert(s@.subrange(i as int, i + p@.len()) =~= p@);
    true
}

/// Whether `s` starts with `p` (executable).
pub fn starts_with_exec(s: &[char], p: &[char]) -> (r: bool)
    ensures
        r == starts_with(s@, p@),
{
    let r = occurs_at_exec(s, p, 0);
    proof {
        if p@.len() <= s@.len() {
            assert(s@.subrange(0, p@.len() as int) == s@.take(p@.len() as int));
        }
    }
    r
}

/// Whether `s` ends with `p` (executable).
pub fn ends_with_exec(s: &[char], p: &[char]) -> (r: bool)
    ensures
        r == ends_with(s@, p@),
{
    if p.len() > s.len() {
        return false;
    }
    let r = occurs_at_exec(s, p, s.len() - p.len());
    assert(s@.subrange(s@.len() - p@.len(), s@.len() as int) == s@.skip(s@.len() - p@.len()));
    r
}

/// Whether `p` occurs anywhere in `s` (executable `str::contains`).
pub fn contains_exec(s: &[char], p: &[char]) -> (r: bool)
    ensures
        r == contains_seq(s@, p@),
{
    if p.len() > s.len() {
        return false;
    }
    let last = s.len() - p.len();
    let mut i: usize = 0;
    loop
        invariant
            p@.len() <= s@.len(),
            last == s@.len() - p@.len(),
            i <= last,
            forall|j: int| 0 <= j < i ==> !occurs_at(s@, p@, j),
        ensures
            forall|j: int| 0 <= j <= last ==> !occurs_at(s@, p@, j),
        decreases last - i,
    {
        if occurs_at_exec(s, p, i) {
            return true;
        }
        if i == last {
            break;
        }
        i = i + 1;
    }
    assert forall|j: int| !occurs_at(s@, p@, j) by {
        if 0 <= j <= last {
        }
    }
    false
}

// ---------------------------------------------------------------------------
// ASCII case folding
// ---------------------------------------------------------------------------
/// `char::to_ascii_lowercase`.
pub open spec fn lower_char(c: char) -> char {
    if 'A' <= c && c <= 'Z' {
        ((c as u32) + 32) as char
    } else {
        c
    }
}

/// `str::to_ascii_lowercase`.
pub open spec fn lower(s: Seq<char>) -> Seq<char> {
    s.map_values(|c: char| lower_char(c))
}

/// Executable `char::to_ascii_lowercase`.
pub fn to_lower_char(c: char) -> (r: char)
    ensures
        r == lower_char(c),
{
    if 'A' <= c && c <= 'Z' {
        let b = (c as u8) + 32;
        b as char
    } else {
        c
    }
}

/// Executable `to_ascii_lowercase` over characters.
pub fn to_lower(v: &[char]) -> (r: Vec<char>)
    ensures
        r@ == lower(v@),
{
    let mut out: Vec<char> = Vec::new();
    let mut i: usize = 0;
    while i < v.len()
        invariant
            i <= v@.len(),
            out@ == lower(v@.take(i as int)),
        decreases v@.len() - i,
    {
        out.push(to_lower_char(v[i]));
        i = i + 1;
        assert(lower(v@.take(i as int)) =~= lower(v@.take((i - 1) as int)).push(
            lower_char(v@[i - 1]),
        ));
    }
    assert(v@.take(v@.len() as int) == v@);
    out
}

/// ASCII case-insensitive equality (`eq_ignore_ascii_case`).
pub open spec fn eq_ignore_case(a: Seq<char>, b: Seq<char>) -> bool {
    lower(a) == lower(b)
}

/// Executable `eq_ignore_ascii_case`.
pub fn eq_ignore_case_exec(a: &[char], b: &[char]) -> (r: bool)
    ensures
        r == eq_ignore_case(a@, b@),
{
    let la = to_lower(a);
    let lb = to_lower(b);
    chars_eq(la.as_slice(), lb.as_slice())
}


// ---------------------------------------------------------------------------
// Lines and tokens
// ---------------------------------------------------------------------------
/// Drop one trailing carriage return.
pub open spec fn strip_cr(l: Seq<char>) -> Seq<char> {
    if l.len() > 0 && l.last() == '\r' {
        l.drop_last()
    } else {
        l
    }
}

/// `str::lines`: split at `\n`, dropping a `\r` right before each `\n`; a
/// final line ending does not start an extra empty line.
pub open spec fn lines(s: Seq<char>) -> Seq<Seq<char>>
    decreases s.len(),
{
    if s.len() == 0 {
        seq![]
    } else {
        let p = pos_of(s, '\n');
        if p < s.len() {
            seq![strip_cr(s.take(p as int))] + lines(s.skip((p + 1) as int))
        } else {
            seq![s]
        }
    }
}

/// The views of a vector of character vectors.
pub open spec fn views(v: Seq<Vec<char>>) -> Seq<Seq<char>> {
    v.map_values(|l: Vec<char>| l@)
}

/// Drop a trailing `\r` (executable).
pub fn strip_cr_exec(v: Vec<char>) -> (r: Vec<char>)
    ensures
        r@ == strip_cr(v@),
{
    let mut v = v;
    if v.len() > 0 && v[v.len() - 1] == '\r' {
        v.pop();
    }
    v
}

/// `str::lines` over characters.
pub fn split_lines(v: &[char]) -> (r: Vec<Vec<char>>)
    ensures
        views(r@) == lines(v@),
{
    let mut out: Vec<Vec<char>> = Vec::new();
    let mut i: usize = 0;
    assert(v@.skip(0) == v@);
    assert(views(out@) + lines(v@) == lines(v@));
    while i < v.len()
        invariant
            i <= v@.len(),
            views(out@) + lines(v@.skip(i as int)) == lines(v@),
        decreases v@.len() - i,
    {
        let ghost rest = v@.skip(i as int);
        let p = find_char(v, i, '\n');
        proof {
            lemma_pos_of(rest, '\n');
        }
        if p < v.len() {
            let line = strip_cr_exec(copy_range(v, i, p));
            proof {
                assert(rest.take(p - i) == v@.subrange(i as int, p as int));
                assert(rest.skip(p - i + 1) == v@.skip(p + 1));
                assert(views(out@.push(line)) == views(out@).push(line@));
                assert(lines(rest) == seq![line@] + lines(v@.skip(p + 1)));
                assert(views(out@).push(line@) + lines(v@.skip(p + 1)) == views(out@) + (
                seq![line@] + lines(v@.skip(p + 1))));
            }
            out.push(line);
            i = p + 1;
        } else {
            let line = copy_range(v, i, v.len());
            proof {
                assert(line@ == rest);
                assert(lines(rest) == seq![rest]);
                assert(views(out@.push(line)) == views(out@).push(line@));
                assert(v@.skip(v@.len() as int) == Seq::<char>::empty());
                assert(lines(v@.skip(v@.len() as int)) == Seq::<Seq<char>>::empty());
                assert(views(out@).push(line@) + Seq::<Seq<char>>::empty() == views(out@) + seq![
                    line@,
                ]);
            }
            out.push(line);
            i = v.len();
        }
    }
    proof {
        assert(v@.skip(i as int) == Seq::<char>::empty());
        assert(views(out@) + Seq::<Seq<char>>::empty() == views(out@));
    }
    out
}

/// Index of the first whitespace character in `s`, or `s.len()`.
pub open spec fn ws_pos(s: Seq<char>) -> nat
    decreases s.len(),
{
    if s.len() == 0 {
        0
    } else if is_ws(s[0]) {
        0
    } else {
        1 + ws_pos(s.drop_first())
    }
}

pub proof fn lemma_ws_pos(s: Seq<char>)
    ensures
        ws_pos(s) <= s.len(),
        forall|j: int| 0 <= j < ws_pos(s) ==> !is_ws(#[trigger] s[j]),
        ws_pos(s) < s.len() ==> is_ws(s[ws_pos(s) as int]),
        s.len() > 0 && !is_ws(s[0]) ==> ws_pos(s) >= 1,
    decreases s.len(),
{
    if s.len() > 0 && !is_ws(s[0]) {
        lemma_ws_pos(s.drop_first());
        assert forall|j: int| 0 <= j < ws_pos(s) implies !is_ws(#[trigger] s[j]) by {
            if j > 0 {
                assert(s[j] == s.drop_first()[j - 1]);
            }
        }
    }
}

pub proof fn lemma_ws_pos_at(s: Seq<char>, i: int)
    requires
        0 <= i <= s.len(),
        forall|j: int| 0 <= j < i ==> !is_ws(#[trigger] s[j]),
        i < s.len() ==> is_ws(s[i]),
    ensures
        ws_pos(s) == i,
    decreases s.len(),
{
    if i > 0 {
        assert forall|j: int| 0 <= j < i - 1 implies !is_ws(#[trigger] s.drop_first()[j]) by {
            assert(s.drop_first()[j] == s[j + 1]);
        }
        lemma_ws_pos_at(s.drop_first(), i - 1);
    }
}

/// `str::split_whitespace`: the maximal runs of non-whitespace characters.
pub open spec fn tokens(s: Seq<char>) -> Seq<Seq<char>>
    decreases s.len(),
{
    let t = trim_start(s);
    if t.len() == 0 {
        seq![]
    } else {
        let p = ws_pos(t);
        proof {
            lemma_lead_ws(s);
            lemma_ws_pos(t);
        }
        seq![t.take(p as int)] + tokens(t.skip(p as int))
    }
}

/// A text made of whitespace, a word and then whitespace (or nothing)
/// splits into that word followed by the tokens of the rest.
pub proof fn lemma_tokens_cons(pre: Seq<char>, w: Seq<char>, rest: Seq<char>)
    requires
        forall|i: int| 0 <= i < pre.len() ==> is_ws(#[trigger] pre[i]),
        w.len() > 0,
        forall|i: int| 0 <= i < w.len() ==> !is_ws(#[trigger] w[i]),
        rest.len() == 0 || is_ws(rest[0]),
    ensures
        tokens(pre + w + rest) == seq![w] + tokens(rest),
{
    let s = pre + w + rest;
    assert forall|j: int| 0 <= j < pre.len() implies is_ws(#[trigger] s[j]) by {
        assert(s[j] == pre[j]);
    }
    assert(s[pre.len() as int] == w[0]);
    lemma_lead_ws_at(s, pre.len() as int);
    let t = trim_start(s);
    assert(t =~= w + rest);
    assert forall|j: int| 0 <= j < w.len() implies !is_ws(#[trigger] t[j]) by {
        assert(t[j] == w[j]);
    }
    if rest.len() > 0 {
        assert(t[w.len() as int] == rest[0]);
    }
    lemma_ws_pos_at(t, w.len() as int);
    assert(t.take(w.len() as int) =~= w);
    assert(t.skip(w.len() as int) =~= rest);
}

/// A text of whitespace only has no tokens.
pub proof fn lemma_tokens_blank(s: Seq<char>)
    requires
        forall|i: int| 0 <= i < s.len() ==> is_ws(#[trigger] s[i]),
    ensures
        tokens(s) == Seq::<Seq<char>>::empty(),
{
    lemma_lead_ws_at(s, s.len() as int);
    assert(trim_start(s).len() == 0);
}

/// `str::split_whitespace` over characters.
pub fn split_ws(v: &[char]) -> (r: Vec<Vec<char>>)
    ensures
        views(r@) == tokens(v@),
{
    let mut out: Vec<Vec<char>> = Vec::new();
    let mut i: usize = 0;
    assert(v@.skip(0) == v@);
    assert(views(out@) + tokens(v@) == tokens(v@));
    while i < v.len()
        invariant
            i <= v@.len(),
            views(out@) + tokens(v@.skip(i as int)) == tokens(v@),
        decreases v@.len() - i,
    {
        let ghost rest = v@.skip(i as int);
        let mut a = i;
        while a < v.len() && is_whitespace(v[a])
            invariant
                i <= a <= v@.len(),
                forall|j: int| i <= j < a ==> is_ws(#[trigger] v@[j]),
            decreases v@.len() - a,
        {
            a = a + 1;
        }
        proof {
            assert forall|j: int| 0 <= j < a - i implies is_ws(#[trigger] rest[j]) by {
                assert(rest[j] == v@[i + j]);
            }
            lemma_lead_ws_at(rest, a - i);
            assert(trim_start(rest) == v@.skip(a as int));
        }
        if a == v.len() {
            proof {
                assert(trim_start(rest).len() == 0);
                assert(tokens(rest) == Seq::<Seq<char>>::empty());
                assert(v@.skip(a as int) == Seq::<char>::empty());
            }
            i = a;
        } else {
            let mut b = a;
            while b < v.len() && !is_whitespace(v[b])
                invariant
                    a <= b <= v@.len(),
                    forall|j: int| a <= j < b ==> !is_ws(#[trigger] v@[j]),
                decreases v@.len() - b,
            {
                b = b + 1;
            }
            let tok = copy_range(v, a, b);
            proof {
                let t = v@.skip(a as int);
                assert forall|j: int| 0 <= j < b - a implies !is_ws(#[trigger] t[j]) by {
                    assert(t[j] == v@[a + j]);
                }
                lemma_ws_pos_at(t, b - a);
                assert(t.take(b - a) == tok@);
                assert(t.skip(b - a) == v@.skip(b as int));
                assert(tokens(rest) == seq![tok@] + tokens(v@.skip(b as int)));
                assert(views(out@.push(tok)) == views(out@).push(tok@));
                assert(views(out@).push(tok@) + tokens(v@.skip(b as int)) == views(out@) + (seq![
                    tok@,
                ] + tokens(v@.skip(b as int))));
            }
            out.push(tok);
            i = b;
        }
    }
    proof {
        assert(v@.skip(i as int) == Seq::<char>::empty());
        assert(trim_start(Seq::<char>::empty()).len() == 0);
        assert(views(out@) + Seq::<Seq<char>>::empty() == views(out@));
    }
    out
}

// ---------------------------------------------------------------------------
// Decimal numbers
// ---------------------------------------------------------------------------
pub open spec fn is_digit(c: char) -> bool {
    '0' <= c && c <= '9'
}

pub open spec fn digit_val(c: char) -> nat {
    ((c as u32) - ('0' as u32)) as nat
}

/// The value of a run of decimal digits.
pub open spec fn digits_value(d: Seq<char>) -> nat
    decreases d.len(),
{
    if d.len() == 0 {
        0
    } else {
        digits_value(d.drop_last()) * 10 + digit_val(d.last())
    }
}

pub open spec fn all_digits(d: Seq<char>) -> bool {
    forall|i: int| 0 <= i < d.len() ==> is_digit(#[trigger] d[i])
}

/// The number an unsigned `str::parse` reads: an optional `+`, then at least
/// one decimal digit and nothing else.
pub open spec fn parse_nat(s: Seq<char>) -> Option<nat> {
    let d = if s.len() > 0 && s[0] == '+' {
        s.drop_first()
    } else {
        s
    };
    if d.len() > 0 && all_digits(d) {
        Some(digits_value(d))
    } else {
        None
    }
}

/// `str::parse::<u64>`.
pub open spec fn parse_u64_spec(s: Seq<char>) -> Option<u64> {
    match parse_nat(s) {
        Some(v) => if v <= u64::MAX {
            Some(v as u64)
        } else {
            None
        },
        None => None,
    }
}

/// `str::parse::<u8>`.
pub open spec fn parse_u8_spec(s: Seq<char>) -> Option<u8> {
    match parse_nat(s) {
        Some(v) => if v <= u8::MAX {
            Some(v as u8)
        } else {
            None
        },
        None => None,
    }
}

/// Executable `str::parse::<u64>().ok()`.
pub fn parse_u64(v: &[char]) -> (r: Option<u64>)
    ensures
        r == parse_u64_spec(v@),
{
    let start: usize = if v.len() > 0 && v[0] == '+' {
        1
    } else {
        0
    };
    let ghost d = if v@.len() > 0 && v@[0] == '+' {
        v@.drop_first()
    } else {
        v@
    };
    assert(d == v@.skip(start as int));
    if start == v.len() {
        assert(d.len() == 0);
        return None;
    }
    let mut acc: u64 = 0;
    let mut overflow = false;
    let mut k = start;
    while k < v.len()
        invariant
            start <= k <= v@.len(),
            d == v@.skip(start as int),
            d == (if v@.len() > 0 && v@[0] == '+' {
                v@.drop_first()
            } else {
                v@
            }),
            forall|j: int| start <= j < k ==> is_digit(#[trigger] v@[j]),
            !overflow ==> acc == digits_value(d.take(k - start)),
            overflow ==> digits_value(d.take(k - start)) > u64::MAX,
        decreases v@.len() - k,
    {
        let c = v[k];
        if !('0' <= c && c <= '9') {
            proof {
                assert(d[k - start] == c);
                assert(!is_digit(d[k - start]));
                assert(!all_digits(d));
            }
            return None;
        }
        let dig = (c as u32) - ('0' as u32);
        proof {
            let t = d.take(k + 1 - start);
            assert(t.drop_last() == d.take(k - start));
            assert(t.last() == c);
        }
        if !overflow {
            let n: u128 = (acc as u128) * 10 + (dig as u128);
            if n > u64::MAX as u128 {
                overflow = true;
            } else {
                acc = n as u64;
            }
        }
        k = k + 1;
    }
    proof {
        assert(d.take(k - start) == d);
        assert forall|i: int| 0 <= i < d.len() implies is_digit(#[trigger] d[i]) by {
            assert(d[i] == v@[start + i]);
        }
    }
    if overflow {
        None
    } else {
        Some(acc)
    }
}

/// Executable `str::parse::<u8>().ok()`.
pub fn parse_u8(v: &[char]) -> (r: Option<u8>)
    ensures
        r == parse_u8_spec(v@),
{
    match parse_u64(v) {
        Some(n) => if n <= 255 {
            Some(n as u8)
        } else {
            None
        },
        None => None,
    }
}


// ---------------------------------------------------------------------------
// Windows paths
// ---------------------------------------------------------------------------
pub open spec fn is_sep(c: char) -> bool {
    c == '\\' || c == '/'
}

/// Whether a character is an ASCII letter (a drive letter).
pub open spec fn is_drive_letter(c: char) -> bool {
    ('a' <= c && c <= 'z') || ('A' <= c && c <= 'Z')
}

/// Whether a Windows path starts with a drive prefix such as `C:`.
pub open spec fn has_drive(p: Seq<char>) -> bool {
    p.len() >= 2 && is_drive_letter(p[0]) && p[1] == ':'
}

/// Whether a Windows path starts with two separators (a UNC path such as
/// `\\server\share`).
pub open spec fn has_unc(p: Seq<char>) -> bool {
    p.len() >= 2 && is_sep(p[0]) && is_sep(p[1])
}

/// The position of the first path separator in `s`, or `s.len()`.
pub open spec fn sep_pos(s: Seq<char>) -> nat
    decreases s.len(),
{
    if s.len() == 0 {
        0
    } else if is_sep(s[0]) {
        0
    } else {
        1 + sep_pos(s.drop_first())
    }
}

pub proof fn lemma_sep_pos(s: Seq<char>)
    ensures
        sep_pos(s) <= s.len(),
    decreases s.len(),
{
    if s.len() > 0 && !is_sep(s[0]) {
        lemma_sep_pos(s.drop_first());
    }
}

pub proof fn lemma_sep_pos_at(s: Seq<char>, i: int)
    requires
        0 <= i <= s.len(),
        forall|j: int| 0 <= j < i ==> !is_sep(#[trigger] s[j]),
        i < s.len() ==> is_sep(s[i]),
    ensures
        sep_pos(s) == i,
    decreases s.len(),
{
    if i > 0 {
        assert forall|j: int| 0 <= j < i - 1 implies !is_sep(#[trigger] s.drop_first()[j]) by {
            assert(s.drop_first()[j] == s[j + 1]);
        }
        lemma_sep_pos_at(s.drop_first(), i - 1);
    }
}

/// The prefix of a UNC path: `\\server\share` (up to the separator after the
/// share, or the whole path).
pub open spec fn unc_prefix(p: Seq<char>) -> Seq<char> {
    let a: int = 2 + sep_pos(p.skip(2)) as int;
    if a >= p.len() {
        p
    } else {
        p.take(a + 1 + sep_pos(p.skip(a + 1)) as int)
    }
}

/// The prefix of a path that a part starting at the root keeps: its drive,
/// or its UNC `\\server\share`, or nothing.
pub open spec fn root_prefix(p: Seq<char>) -> Seq<char> {
    if has_drive(p) {
        p.take(2)
    } else if has_unc(p) {
        unc_prefix(p)
    } else {
        seq![]
    }
}

/// `base` joined with `part`, as Windows `Path::join` does it: a `part` with
/// its own prefix (a drive or a UNC server) replaces `base`; a `part` that
/// starts at the root keeps only `base`'s prefix (drive or UNC share);
/// otherwise `part` is appended after one `\` separator, none when `base` is
/// empty, is a bare drive such as `C:`, or already ends in a separator.
/// (Verbatim `\\?\` prefixes are read as UNC ones.)
pub open spec fn join_path(base: Seq<char>, part: Seq<char>) -> Seq<char> {
    if has_drive(part) || has_unc(part) {
        part
    } else if part.len() >= 1 && is_sep(part[0]) {
        root_prefix(base) + part
    } else if base.len() == 0 {
        part
    } else if base.len() == 2 && has_drive(base) {
        base + part
    } else if is_sep(base.last()) {
        base + part
    } else {
        base + seq!['\\'] + part
    }
}

fn is_sep_exec(c: char) -> (r: bool)
    ensures
        r == is_sep(c),
{
    c == '\\' || c == '/'
}

fn has_drive_exec(p: &[char]) -> (r: bool)
    ensures
        r == has_drive(p@),
{
    p.len() >= 2 && (('a' <= p[0] && p[0] <= 'z') || ('A' <= p[0] && p[0] <= 'Z')) && p[1] == ':'
}

/// The first index at or after `from` that holds a separator, or `v.len()`.
fn find_sep(v: &[char], from: usize) -> (r: usize)
    requires
        from <= v@.len(),
    ensures
        from <= r <= v@.len(),
        r - from == sep_pos(v@.skip(from as int)),
{
    let mut i = from;
    while i < v.len() && !is_sep_exec(v[i])
        invariant
            from <= i <= v@.len(),
            forall|j: int| from <= j < i ==> !is_sep(#[trigger] v@[j]),
        decreases v@.len() - i,
    {
        i = i + 1;
    }
    proof {
        let t = v@.skip(from as int);
        assert forall|j: int| 0 <= j < i - from implies !is_sep(#[trigger] t[j]) by {
            assert(t[j] == v@[from + j]);
        }
        if i < v@.len() {
            assert(t[i - from] == v@[i as int]);
        }
        lemma_sep_pos_at(t, i - from);
    }
    i
}

/// Executable [`root_prefix`]: its length.
fn root_prefix_len(b: &[char]) -> (r: usize)
    ensures
        r <= b@.len(),
        b@.take(r as int) == root_prefix(b@),
{
    if has_drive_exec(b) {
        return 2;
    }
    if b.len() >= 2 && is_sep_exec(b[0]) && is_sep_exec(b[1]) {
        let a = find_sep(b, 2);
        if a >= b.len() {
            assert(b@.take(b@.len() as int) =~= b@);
            return b.len();
        }
        let e = find_sep(b, a + 1);
        return e;
    }
    assert(b@.take(0) =~= Seq::<char>::empty());
    0
}

/// Executable [`join_path`].
pub fn join_path_exec(base: &str, part: &str) -> (r: String)
    ensures
        r@ == join_path(base@, part@),
{
    let b = to_chars(base);
    let p = to_chars(part);
    if has_drive_exec(p.as_slice()) || (p.len() >= 2 && is_sep_exec(p[0]) && is_sep_exec(p[1])) {
        return part.to_owned();
    }
    if p.len() >= 1 && is_sep_exec(p[0]) {
        let n = root_prefix_len(b.as_slice());
        let mut out = copy_range(b.as_slice(), 0, n);
        push_all(&mut out, p.as_slice());
        assert(b@.subrange(0, n as int) == b@.take(n as int));
        return from_chars(out.as_slice());
    }
    let mut out = b.clone();
    let bare_drive = b.len() == 2 && has_drive_exec(b.as_slice());
    if b.len() > 0 && !bare_drive && !is_sep_exec(b[b.len() - 1]) {
        out.push('\\');
    }
    push_all(&mut out, p.as_slice());
    proof {
        if b@.len() == 0 {
            assert(out@ =~= p@);
        }
    }
    from_chars(out.as_slice())
}

} // verus!
