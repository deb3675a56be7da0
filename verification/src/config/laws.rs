//! Laws of the INI document: what `get` reads back after `set`, and that a
//! `set` leaves every other key alone.
use vstd::prelude::*;

use crate::config::ini::{
    cur_section, find_spec, header_line, get_spec, in_section, insert_pos, is_match, parse_doc, parse_line,
    render_doc, render_line, set_spec, IniLine,
};
use crate::text::{eq_ignore_case, lemma_pos_of, lemma_pos_of_at, lines, pos_of, strip_cr, trim};
use crate::config::ini::eq_pos;

verus! {

pub open spec fn is_header(l: IniLine) -> bool {
    l matches IniLine::Section(_, _)
}

proof fn lemma_cs_prefix(d: Seq<IniLine>, e: Seq<IniLine>, j: int)
    requires
        0 <= j <= d.len(),
        j <= e.len(),
        forall|m: int| 0 <= m < j ==> d[m] == e[m],
    ensures
        cur_section(d, j) == cur_section(e, j),
    decreases j,
{
    if j > 0 {
        lemma_cs_prefix(d, e, j - 1);
    }
}

proof fn lemma_cs_update(d: Seq<IniLine>, i: int, x: IniLine, j: int)
    requires
        0 <= i < d.len(),
        !is_header(d[i]),
        !is_header(x),
        0 <= j <= d.len(),
    ensures
        cur_section(d.update(i, x), j) == cur_section(d, j),
    decreases j,
{
    if j > 0 {
        lemma_cs_update(d, i, x, j - 1);
    }
}

proof fn lemma_cs_remove(d: Seq<IniLine>, i: int, j: int)
    requires
        0 <= i < d.len(),
        !is_header(d[i]),
        0 <= j < d.len(),
    ensures
        j <= i ==> cur_section(d.remove(i), j) == cur_section(d, j),
        j >= i ==> cur_section(d.remove(i), j) == cur_section(d, j + 1),
    decreases j,
{
    let r = d.remove(i);
    if j <= i {
        lemma_cs_prefix(r, d, j);
    }
    if j == i {
        assert(cur_section(d, j + 1) == cur_section(d, j));
    }
    if j > i {
        lemma_cs_remove(d, i, j - 1);
        assert(r[j - 1] == d[j]);
    }
}

proof fn lemma_cs_insert(d: Seq<IniLine>, p: int, x: IniLine, j: int)
    requires
        0 <= p <= d.len(),
        !is_header(x),
        0 <= j <= d.len() + 1,
    ensures
        j <= p ==> cur_section(d.insert(p, x), j) == cur_section(d, j),
        j > p ==> cur_section(d.insert(p, x), j) == cur_section(d, j - 1),
    decreases j,
{
    let r = d.insert(p, x);
    if j <= p {
        lemma_cs_prefix(r, d, j);
    }
    if j == p + 1 {
        lemma_cs_prefix(r, d, p);
    }
    if j > p + 1 {
        lemma_cs_insert(d, p, x, j - 1);
        assert(r[j - 1] == d[j - 2]);
    }
}

proof fn lemma_cs_push(d: Seq<IniLine>, s: Seq<char>, x: IniLine, j: int)
    requires
        0 <= j <= d.len(),
    ensures
        cur_section(d.push(header_line(s)).push(x), j) == cur_section(d, j),
        cur_section(d.push(header_line(s)).push(x), d.len() + 1int) == Some(s),
{
    let r = d.push(header_line(s)).push(x);
    lemma_cs_prefix(r, d, j);
}

/// `find_spec` characterised by its first-match property.
proof fn lemma_find(d: Seq<IniLine>, s: Seq<char>, k: Seq<char>)
    ensures
        match find_spec(d, s, k) {
            Some(i) => is_match(d, s, k, i) && forall|j: int|
                0 <= j < i ==> !is_match(d, s, k, j),
            None => forall|j: int| !is_match(d, s, k, j),
        },
{
    if exists|i: int| is_match(d, s, k, i) {
        let i = choose|i: int| is_match(d, s, k, i);
        lemma_first(d, s, k, i);
    }
}

proof fn lemma_first(d: Seq<IniLine>, s: Seq<char>, k: Seq<char>, i: int)
    requires
        is_match(d, s, k, i),
    ensures
        exists|m: int| is_match(d, s, k, m) && forall|j: int| 0 <= j < m ==> !is_match(d, s, k, j),
    decreases i,
{
    if exists|j: int| 0 <= j < i && is_match(d, s, k, j) {
        let j = choose|j: int| 0 <= j < i && is_match(d, s, k, j);
        lemma_first(d, s, k, j);
    }
}

proof fn lemma_find_at(d: Seq<IniLine>, s: Seq<char>, k: Seq<char>, i: int)
    requires
        is_match(d, s, k, i),
        forall|j: int| 0 <= j < i ==> !is_match(d, s, k, j),
    ensures
        find_spec(d, s, k) == Some(i),
{
    lemma_find(d, s, k);
    let m = find_spec(d, s, k).unwrap();
    if m < i {
    } else if m > i {
    }
}

proof fn lemma_find_none(d: Seq<IniLine>, s: Seq<char>, k: Seq<char>)
    requires
        forall|j: int| !is_match(d, s, k, j),
    ensures
        find_spec(d, s, k).is_none(),
{
}

proof fn lemma_insert_pos_props(d: Seq<IniLine>, s: Seq<char>)
    ensures
        match insert_pos(d, s) {
            Some(p) => 1 <= p <= d.len() && in_section(d, s, p - 1),
            None => true,
        },
{
    if exists|i: int| in_section(d, s, i) {
        let i = choose|i: int| in_section(d, s, i);
        lemma_last(d, s, i);
    }
}

proof fn lemma_last(d: Seq<IniLine>, s: Seq<char>, i: int)
    requires
        in_section(d, s, i),
    ensures
        exists|m: int| in_section(d, s, m) && forall|j: int| m < j < d.len() ==> !in_section(d, s, j),
    decreases d.len() - i,
{
    if exists|j: int| i < j < d.len() && in_section(d, s, j) {
        let j = choose|j: int| i < j < d.len() && in_section(d, s, j);
        lemma_last(d, s, j);
    }
}

/// Whether the query `(s2, k2)` can name the same entries as `(s, k)`.
pub open spec fn same_key(s: Seq<char>, k: Seq<char>, s2: Seq<char>, k2: Seq<char>) -> bool {
    s2 == s && eq_ignore_case(k2, k)
}

proof fn lemma_first_after_update(d: Seq<IniLine>, s: Seq<char>, k: Seq<char>, i: int, x: IniLine)
    requires
        is_match(d, s, k, i),
        forall|j: int| 0 <= j < i ==> !is_match(d, s, k, j),
        x matches IniLine::Entry(k0, _) && eq_ignore_case(k0, k),
    ensures
        find_spec(d.update(i, x), s, k) == Some(i),
{
    let r = d.update(i, x);
    lemma_cs_update(d, i, x, i);
    assert forall|j: int| 0 <= j < i implies !is_match(r, s, k, j) by {
        lemma_cs_update(d, i, x, j);
        assert(r[j] == d[j]);
        assert(!is_match(d, s, k, j));
    }
    lemma_find_at(r, s, k, i);
}

proof fn lemma_first_after_insert(d: Seq<IniLine>, s: Seq<char>, k: Seq<char>, p: int, v: Seq<char>)
    requires
        forall|j: int| !is_match(d, s, k, j),
        1 <= p <= d.len(),
        in_section(d, s, p - 1),
    ensures
        find_spec(d.insert(p, IniLine::Entry(k, v)), s, k) == Some(p),
{
    let x = IniLine::Entry(k, v);
    let r = d.insert(p, x);
    lemma_cs_insert(d, p, x, p);
    assert(cur_section(d, p) == Some(s)) by {
        assert(cur_section(d, p) == match d[p - 1] {
            IniLine::Section(n, _) => Some(n),
            _ => cur_section(d, p - 1),
        });
    }
    assert(eq_ignore_case(k, k));
    assert(is_match(r, s, k, p));
    assert forall|j: int| 0 <= j < p implies !is_match(r, s, k, j) by {
        lemma_cs_insert(d, p, x, j);
        assert(r[j] == d[j]);
        assert(!is_match(d, s, k, j));
    }
    lemma_find_at(r, s, k, p);
}

proof fn lemma_first_after_push(d: Seq<IniLine>, s: Seq<char>, k: Seq<char>, v: Seq<char>)
    requires
        forall|j: int| !is_match(d, s, k, j),
    ensures
        find_spec(d.push(header_line(s)).push(IniLine::Entry(k, v)), s, k) == Some(
            d.len() + 1int,
        ),
{
    let n = d.len() as int;
    let x = IniLine::Entry(k, v);
    let r = d.push(header_line(s)).push(x);
    lemma_cs_push(d, s, x, 0);
    assert(eq_ignore_case(k, k));
    assert(is_match(r, s, k, n + 1));
    assert forall|j: int| 0 <= j < n + 1 implies !is_match(r, s, k, j) by {
        if j < n {
            lemma_cs_push(d, s, x, j);
            assert(r[j] == d[j]);
            assert(!is_match(d, s, k, j));
        }
    }
    lemma_find_at(r, s, k, n + 1);
}

/// After `set(section, key, value)` with a value that is not blank, `get`
/// returns the trimmed value.
pub proof fn law_get_after_set(d: Seq<IniLine>, section: Seq<char>, key: Seq<char>, value: Seq<char>)
    requires
        trim(value).len() > 0,
    ensures
        get_spec(set_spec(d, section, key, value), section, key) == Some(trim(value)),
{
    let (s, k) = (section, key);
    let v = trim(value);
    lemma_find(d, s, k);
    match find_spec(d, s, k) {
        Some(i) => {
            let x = match d[i] {
                IniLine::Entry(k0, _) => IniLine::Entry(k0, v),
                _ => d[i],
            };
            lemma_first_after_update(d, s, k, i, x);
        },
        None => {
            lemma_insert_pos_props(d, s);
            match insert_pos(d, s) {
                Some(p) => {
                    lemma_first_after_insert(d, s, k, p, v);
                },
                None => {
                    lemma_first_after_push(d, s, k, v);
                },
            }
        },
    }
}

proof fn lemma_other_after_remove(d: Seq<IniLine>, i: int, s2: Seq<char>, k2: Seq<char>)
    requires
        0 <= i < d.len(),
        d[i] matches IniLine::Entry(_, _),
        !is_match(d, s2, k2, i),
    ensures
        get_spec(d.remove(i), s2, k2) == get_spec(d, s2, k2),
{
    let r = d.remove(i);
    lemma_find(d, s2, k2);
    assert forall|j: int| 0 <= j < d.len() - 1 implies #[trigger] is_match(r, s2, k2, j) == is_match(
        d,
        s2,
        k2,
        if j < i {
            j
        } else {
            j + 1
        },
    ) by {
        lemma_cs_remove(d, i, j);
        if j < i {
            assert(r[j] == d[j]);
        } else {
            assert(r[j] == d[j + 1]);
        }
    }
    match find_spec(d, s2, k2) {
        Some(m) => {
            let m2 = if m < i {
                m
            } else {
                m - 1
            };
            assert(is_match(r, s2, k2, m2));
            assert forall|j: int| 0 <= j < m2 implies !is_match(r, s2, k2, j) by {
                if j >= i {
                    assert(!is_match(d, s2, k2, j + 1));
                }
            }
            lemma_find_at(r, s2, k2, m2);
            assert(r[m2] == d[m]);
        },
        None => {
            assert forall|j: int| !is_match(r, s2, k2, j) by {
                if 0 <= j < d.len() - 1 && j >= i {
                    assert(!is_match(d, s2, k2, j + 1));
                }
            }
            lemma_find_none(r, s2, k2);
        },
    }
}

proof fn lemma_other_after_update(d: Seq<IniLine>, i: int, x: IniLine, s2: Seq<char>, k2: Seq<char>)
    requires
        0 <= i < d.len(),
        d[i] matches IniLine::Entry(_, _),
        x matches IniLine::Entry(_, _),
        !is_match(d, s2, k2, i),
        !is_match(d.update(i, x), s2, k2, i),
    ensures
        get_spec(d.update(i, x), s2, k2) == get_spec(d, s2, k2),
{
    let r = d.update(i, x);
    lemma_find(d, s2, k2);
    assert forall|j: int| #![auto] is_match(r, s2, k2, j) == is_match(d, s2, k2, j) by {
        if 0 <= j < d.len() {
            lemma_cs_update(d, i, x, j);
        }
    }
    match find_spec(d, s2, k2) {
        Some(m) => {
            lemma_find_at(r, s2, k2, m);
        },
        None => {
            lemma_find_none(r, s2, k2);
        },
    }
}

proof fn lemma_other_after_insert(d: Seq<IniLine>, p: int, x: IniLine, s2: Seq<char>, k2: Seq<char>)
    requires
        0 <= p <= d.len(),
        x matches IniLine::Entry(_, _),
        !is_match(d.insert(p, x), s2, k2, p),
    ensures
        get_spec(d.insert(p, x), s2, k2) == get_spec(d, s2, k2),
{
    let r = d.insert(p, x);
    lemma_find(d, s2, k2);
    assert forall|j: int| 0 <= j < d.len() + 1 && j != p implies #[trigger] is_match(r, s2, k2, j)
        == is_match(d, s2, k2, if j < p {
        j
    } else {
        j - 1
    }) by {
        lemma_cs_insert(d, p, x, j);
        if j < p {
            assert(r[j] == d[j]);
        } else {
            assert(r[j] == d[j - 1]);
        }
    }
    match find_spec(d, s2, k2) {
        Some(m) => {
            let m2 = if m < p {
                m
            } else {
                m + 1
            };
            assert(is_match(r, s2, k2, m2));
            assert forall|j: int| 0 <= j < m2 implies !is_match(r, s2, k2, j) by {
                if j > p {
                    assert(!is_match(d, s2, k2, j - 1));
                }
            }
            lemma_find_at(r, s2, k2, m2);
            assert(r[m2] == d[m]);
        },
        None => {
            assert forall|j: int| !is_match(r, s2, k2, j) by {
                if 0 <= j < d.len() + 1 && j > p {
                    assert(!is_match(d, s2, k2, j - 1));
                }
            }
            lemma_find_none(r, s2, k2);
        },
    }
}

proof fn lemma_other_after_push(d: Seq<IniLine>, s: Seq<char>, x: IniLine, s2: Seq<char>, k2: Seq<char>)
    requires
        !is_match(d.push(header_line(s)).push(x), s2, k2, d.len() + 1int),
    ensures
        get_spec(d.push(header_line(s)).push(x), s2, k2) == get_spec(d, s2, k2),
{
    let n = d.len() as int;
    let r = d.push(header_line(s)).push(x);
    lemma_find(d, s2, k2);
    assert(!is_match(r, s2, k2, n));
    assert forall|j: int| 0 <= j < n implies #[trigger] is_match(r, s2, k2, j) == is_match(
        d,
        s2,
        k2,
        j,
    ) by {
        lemma_cs_push(d, s, x, j);
        assert(r[j] == d[j]);
    }
    match find_spec(d, s2, k2) {
        Some(m) => {
            lemma_find_at(r, s2, k2, m);
            assert(r[m] == d[m]);
        },
        None => {
            lemma_find_none(r, s2, k2);
        },
    }
}

/// A `set` leaves every other key's value as it was: only the queried key of
/// the queried section can change.
pub proof fn law_set_preserves_other_keys(
    d: Seq<IniLine>,
    section: Seq<char>,
    key: Seq<char>,
    value: Seq<char>,
    other_section: Seq<char>,
    other_key: Seq<char>,
)
    requires
        !same_key(section, key, other_section, other_key),
    ensures
        get_spec(set_spec(d, section, key, value), other_section, other_key) == get_spec(
            d,
            other_section,
            other_key,
        ),
{
    let (s, k, s2, k2) = (section, key, other_section, other_key);
    let v = trim(value);
    lemma_find(d, s, k);
    match find_spec(d, s, k) {
        Some(i) => {
            if v.len() == 0 {
                lemma_other_after_remove(d, i, s2, k2);
            } else {
                let x = match d[i] {
                    IniLine::Entry(k0, _) => IniLine::Entry(k0, v),
                    _ => d[i],
                };
                lemma_cs_update(d, i, x, i);
                lemma_other_after_update(d, i, x, s2, k2);
            }
        },
        None => {
            if v.len() > 0 {
                lemma_insert_pos_props(d, s);
                let x = IniLine::Entry(k, v);
                match insert_pos(d, s) {
                    Some(p) => {
                        lemma_cs_insert(d, p, x, p);
                        assert(cur_section(d, p) == Some(s)) by {
                            assert(cur_section(d, p) == match d[p - 1] {
                                IniLine::Section(n, _) => Some(n),
                                _ => cur_section(d, p - 1),
                            });
                        }
                        lemma_other_after_insert(d, p, x, s2, k2);
                    },
                    None => {
                        lemma_cs_push(d, s, x, 0);
                        lemma_other_after_push(d, s, x, s2, k2);
                    },
                }
            }
        },
    }
}

proof fn lemma_none_after_remove(d: Seq<IniLine>, s: Seq<char>, k: Seq<char>, i: int)
    requires
        is_match(d, s, k, i),
        forall|a: int, b: int| is_match(d, s, k, a) && is_match(d, s, k, b) ==> a == b,
    ensures
        find_spec(d.remove(i), s, k).is_none(),
{
    let r = d.remove(i);
    assert forall|j: int| 0 <= j < d.len() - 1 implies #[trigger] is_match(r, s, k, j) == is_match(
        d,
        s,
        k,
        if j < i {
            j
        } else {
            j + 1
        },
    ) by {
        lemma_cs_remove(d, i, j);
        if j < i {
            assert(r[j] == d[j]);
        } else {
            assert(r[j] == d[j + 1]);
        }
    }
    assert forall|j: int| !is_match(r, s, k, j) by {
        if 0 <= j < d.len() - 1 {
            if j < i {
                assert(!is_match(d, s, k, j));
            } else {
                assert(!is_match(d, s, k, j + 1));
            }
        }
    }
    lemma_find_none(r, s, k);
}

/// Clearing a key (a blank value) removes it when the document holds it once.
pub proof fn law_blank_value_removes_key(
    d: Seq<IniLine>,
    section: Seq<char>,
    key: Seq<char>,
    value: Seq<char>,
)
    requires
        trim(value).len() == 0,
        forall|i: int, j: int|
            is_match(d, section, key, i) && is_match(d, section, key, j) ==> i == j,
    ensures
        get_spec(set_spec(d, section, key, value), section, key).is_none(),
{
    lemma_find(d, section, key);
    match find_spec(d, section, key) {
        Some(i) => {
            lemma_none_after_remove(d, section, key, i);
        },
        None => {},
    }
}

proof fn lemma_render_doc_append(a: Seq<IniLine>, b: Seq<IniLine>)
    ensures
        render_doc(a + b) == render_doc(a) + render_doc(b),
    decreases b.len(),
{
    if b.len() == 0 {
        assert(a + b =~= a);
        assert(render_doc(b) =~= seq![]);
        assert(render_doc(a) + render_doc(b) =~= render_doc(a));
    } else {
        assert((a + b).drop_last() =~= a + b.drop_last());
        assert((a + b).last() == b.last());
        lemma_render_doc_append(a, b.drop_last());
        assert(render_doc(a + b) =~= render_doc(a) + render_doc(b));
    }
}

/// Whether a `\r` sits right before a `\n` somewhere in `text`.
pub open spec fn has_crlf(text: Seq<char>) -> bool {
    exists|i: int| 0 < i < text.len() && text[i] == '\n' && #[trigger] text[i - 1] == '\r'
}

/// Whether a line renders back exactly as it was read.
pub open spec fn canonical_line(l: Seq<char>) -> bool {
    render_line(parse_line(l)) == l
}

/// Rendering a parsed document gives the text back — comments, blank lines,
/// unknown keys and order included — when the text ends with a line break,
/// uses `\n` line breaks, and each entry is already in the form the document
/// writes it (`key=value`, without padding).
pub proof fn law_render_parse_round_trip(text: Seq<char>)
    requires
        text.len() == 0 || text.last() == '\n',
        !has_crlf(text),
        forall|k: int| 0 <= k < lines(text).len() ==> canonical_line(#[trigger] lines(text)[k]),
    ensures
        render_doc(parse_doc(text)) == text,
    decreases text.len(),
{
    if text.len() > 0 {
        let p = pos_of(text, '\n');
        lemma_pos_of(text, '\n');
        let head = text.take(p as int);
        let rest = text.skip((p + 1) as int);
        assert(p < text.len());
        assert(strip_cr(head) == head) by {
            if head.len() > 0 && head.last() == '\r' {
                assert(text[p - 1] == '\r');
                assert(text[p as int] == '\n');
            }
        }
        assert(lines(text) == seq![head] + lines(rest));
        assert(!has_crlf(rest)) by {
            if has_crlf(rest) {
                let i = choose|i: int| 0 < i < rest.len() && rest[i] == '\n' && #[trigger] rest[i - 1] == '\r';
                assert(text[p + 1 + i] == rest[i]);
                assert(text[p + 1 + i - 1] == rest[i - 1]);
            }
        }
        assert(rest.len() == 0 || rest.last() == '\n') by {
            if rest.len() > 0 {
                assert(rest.last() == text.last());
            }
        }
        assert forall|k: int| 0 <= k < lines(rest).len() implies canonical_line(#[trigger] lines(rest)[k]) by {
            assert(lines(text)[k + 1] == lines(rest)[k]);
        }
        law_render_parse_round_trip(rest);
        assert(canonical_line(lines(text)[0]));
        let d = parse_doc(text);
        let first = seq![parse_line(head)];
        assert(d =~= first + parse_doc(rest));
        lemma_render_doc_append(first, parse_doc(rest));
        assert(first.drop_last() =~= Seq::<IniLine>::empty());
        assert(first.last() == parse_line(head));
        assert(render_doc(Seq::<IniLine>::empty()) =~= Seq::<char>::empty());
        assert(render_doc(first) =~= render_line(parse_line(head)) + seq!['\n']);
        assert(text =~= head + seq!['\n'] + rest);
    } else {
        assert(parse_doc(text) =~= Seq::<IniLine>::empty());
    }
}

/// Whether a line is read back as it is written: its text holds no line
/// break, does not end in a carriage return, and parses to the line itself.
pub open spec fn line_round_trips(l: IniLine) -> bool {
    let t = render_line(l);
    &&& !t.contains('\n')
    &&& !(t.len() > 0 && t.last() == '\r')
    &&& parse_line(t) == l
}

proof fn lemma_render_one(l: IniLine)
    ensures
        render_doc(seq![l]) == render_line(l) + seq!['\n'],
{
    assert(seq![l].drop_last() =~= Seq::<IniLine>::empty());
    assert(render_doc(Seq::<IniLine>::empty()) =~= Seq::<char>::empty());
    assert(render_doc(seq![l]) =~= render_line(l) + seq!['\n']);
}

/// The lines of a rendered document are the rendered lines, when none of them
/// holds a line break or ends in a carriage return.
pub proof fn lemma_lines_of_render(d: Seq<IniLine>)
    requires
        forall|i: int| 0 <= i < d.len() ==> line_round_trips(#[trigger] d[i]),
    ensures
        lines(render_doc(d)) == d.map_values(|l: IniLine| render_line(l)),
    decreases d.len(),
{
    if d.len() == 0 {
        assert(render_doc(d) =~= Seq::<char>::empty());
        assert(d.map_values(|l: IniLine| render_line(l)) =~= Seq::<Seq<char>>::empty());
    } else {
        let head = d[0];
        let tail = d.skip(1);
        assert(d =~= seq![head] + tail);
        lemma_render_doc_append(seq![head], tail);
        lemma_render_one(head);
        let x = render_line(head);
        let rest = render_doc(tail);
        let text = render_doc(d);
        assert(text =~= x + seq!['\n'] + rest);
        assert(line_round_trips(d[0]));
        assert forall|j: int| 0 <= j < x.len() implies #[trigger] text[j] != '\n' by {
            assert(text[j] == x[j]);
            if x[j] == '\n' {
                assert(x.contains('\n'));
            }
        }
        lemma_pos_of_at(text, '\n', x.len() as int);
        assert(text.take(x.len() as int) =~= x);
        assert(text.skip(x.len() + 1int) =~= rest);
        assert(strip_cr(x) == x);
        assert forall|i: int| 0 <= i < tail.len() implies line_round_trips(#[trigger] tail[i]) by {
            assert(tail[i] == d[i + 1]);
        }
        lemma_lines_of_render(tail);
        assert(lines(text) == seq![x] + lines(rest));
        assert(d.map_values(|l: IniLine| render_line(l)) =~= seq![x] + tail.map_values(
            |l: IniLine| render_line(l),
        ));
    }
}

/// A rendered document parses back to itself when each of its lines is read
/// back as it is written.
pub proof fn law_parse_render_round_trip(d: Seq<IniLine>)
    requires
        forall|i: int| 0 <= i < d.len() ==> line_round_trips(#[trigger] d[i]),
    ensures
        parse_doc(render_doc(d)) == d,
{
    lemma_lines_of_render(d);
    let ls = lines(render_doc(d));
    assert forall|i: int| 0 <= i < d.len() implies #[trigger] parse_doc(render_doc(d))[i] == d[i] by {
        assert(ls[i] == render_line(d[i]));
        assert(line_round_trips(d[i]));
    }
    assert(parse_doc(render_doc(d)) =~= d);
}

/// Setting a blank value for a key the document has no entry for leaves the
/// document as it was.
pub proof fn law_blank_value_without_entry_keeps_doc(
    d: Seq<IniLine>,
    section: Seq<char>,
    key: Seq<char>,
    value: Seq<char>,
)
    requires
        trim(value).len() == 0,
        get_spec(d, section, key).is_none(),
    ensures
        set_spec(d, section, key, value) == d,
{
    lemma_find(d, section, key);
}

/// The text of a document split around line `i`: the lines before it, its
/// own line, and the lines after it.
proof fn lemma_render_around(d: Seq<IniLine>, i: int)
    requires
        0 <= i < d.len(),
    ensures
        render_doc(d) == render_doc(d.take(i)) + render_line(d[i]) + seq!['\n'] + render_doc(
            d.skip(i + 1),
        ),
{
    assert(d =~= d.take(i) + seq![d[i]] + d.skip(i + 1));
    lemma_render_doc_append(d.take(i) + seq![d[i]], d.skip(i + 1));
    lemma_render_doc_append(d.take(i), seq![d[i]]);
    lemma_render_one(d[i]);
}

/// Setting a key the document holds to a value that is not blank rewrites
/// only the line of its first entry, as `key=value` with the key spelled as it
/// was: the text before and after that line stays as it was.
pub proof fn law_set_rewrites_one_line(
    d: Seq<IniLine>,
    section: Seq<char>,
    key: Seq<char>,
    value: Seq<char>,
)
    requires
        trim(value).len() > 0,
        get_spec(d, section, key).is_some(),
    ensures
        match find_spec(d, section, key) {
            Some(i) => match d[i] {
                IniLine::Entry(k0, _) => {
                    &&& 0 <= i < d.len()
                    &&& set_spec(d, section, key, value).len() == d.len()
                    &&& render_doc(d) == render_doc(d.take(i)) + render_line(d[i]) + seq!['\n']
                        + render_doc(d.skip(i + 1))
                    &&& render_doc(set_spec(d, section, key, value)) == render_doc(d.take(i))
                        + k0 + seq!['='] + trim(value) + seq!['\n'] + render_doc(d.skip(i + 1))
                },
                _ => false,
            },
            None => false,
        },
{
    lemma_find(d, section, key);
    let i = find_spec(d, section, key).unwrap();
    let x = match d[i] {
        IniLine::Entry(k0, _) => IniLine::Entry(k0, trim(value)),
        _ => d[i],
    };
    let r = d.update(i, x);
    assert(r == set_spec(d, section, key, value));
    lemma_render_around(d, i);
    lemma_render_around(r, i);
    assert(r.take(i) =~= d.take(i));
    assert(r.skip(i + 1) =~= d.skip(i + 1));
}

/// A `key=value` line is read as the trimmed key and the trimmed whole
/// remainder after the first `=`, whatever `=` characters the value holds;
/// so a value such as `metadata,umask=22,fmask=11` is kept whole. (The line is
/// an entry: it is no comment and no `[section]` header.)
pub proof fn law_entry_value_is_whole_remainder(raw: Seq<char>, k: Seq<char>, v: Seq<char>)
    requires
        trim(raw) == k + seq!['='] + v,
        !k.contains('='),
        k.len() == 0 || (k[0] != '#' && k[0] != ';'),
        !(trim(raw)[0] == '[' && trim(raw).last() == ']'),
    ensures
        parse_line(raw) == IniLine::Entry(trim(k), trim(v)),
{
    let t = trim(raw);
    assert forall|j: int| 0 <= j < k.len() implies #[trigger] t[j] != '=' by {
        assert(t[j] == k[j]);
        if k[j] == '=' {
            assert(k.contains('='));
        }
    }
    assert(t[k.len() as int] == '=');
    lemma_pos_of_at(t, '=', k.len() as int);
    assert(eq_pos(t) == k.len());
    assert(t.take(k.len() as int) =~= k);
    assert(t.skip(k.len() + 1int) =~= v);
    if k.len() > 0 {
        assert(t[0] == k[0]);
    } else {
        assert(t[0] == '=');
    }
}

} // verus!
