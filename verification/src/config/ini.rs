//! A minimal INI parser/writer that preserves comments, blank lines, unknown
//! keys, and line/section order across a parse → render round trip. Used for
//! `.wslconfig` and `wsl.conf`.
//!
//! Only `key=value` entries are normalized (surrounding spaces are dropped);
//! everything else, section headers included, is kept verbatim.
use vstd::prelude::*;

use crate::text::{
    chars_eq, copy_range, eq_ignore_case, eq_ignore_case_exec, find_char, from_chars, lines,
    pos_of, push_all, push_str_chars, split_lines, to_chars, trim, trim_chars, views,
};

verus! {

/// The meaning of one INI line.
pub enum IniLine {
    /// A blank, comment or unrecognized line, kept verbatim.
    Other(Seq<char>),
    /// A `[section]` header: the trimmed section name, and the line as read.
    Section(Seq<char>, Seq<char>),
    /// A `key=value` entry (both trimmed).
    Entry(Seq<char>, Seq<char>),
}

/// One line of an INI document.
#[derive(Debug, PartialEq, Eq)]
enum Line {
    Other(String),
    Section { name: String, raw: String },
    Entry { key: String, value: String },
}

impl View for Line {
    type V = IniLine;

    closed spec fn view(&self) -> IniLine {
        match self {
            Line::Other(t) => IniLine::Other(t@),
            Line::Section { name, raw } => IniLine::Section(name@, raw@),
            Line::Entry { key, value } => IniLine::Entry(key@, value@),
        }
    }
}

impl Clone for Line {
    fn clone(&self) -> (r: Self)
        ensures
            r@ == self@,
    {
        match self {
            Line::Other(t) => Line::Other(t.clone()),
            Line::Section { name, raw } => Line::Section { name: name.clone(), raw: raw.clone() },
            Line::Entry { key, value } => Line::Entry { key: key.clone(), value: value.clone() },
        }
    }
}

/// A parsed INI document that round-trips non-semantic content.
#[derive(Debug, PartialEq, Eq)]
pub struct IniDoc {
    lines: Vec<Line>,
}

impl View for IniDoc {
    type V = Seq<IniLine>;

    closed spec fn view(&self) -> Seq<IniLine> {
        self.lines@.map_values(|l: Line| l@)
    }
}

impl Clone for IniDoc {
    fn clone(&self) -> (r: Self)
        ensures
            r@ == self@,
    {
        let mut out: Vec<Line> = Vec::new();
        let mut i: usize = 0;
        while i < self.lines.len()
            invariant
                i <= self.lines@.len(),
                out@.map_values(|l: Line| l@) == self.lines@.take(i as int).map_values(
                    |l: Line| l@,
                ),
            decreases self.lines@.len() - i,
        {
            out.push(self.lines[i].clone());
            i = i + 1;
            assert(self.lines@.take(i as int).map_values(|l: Line| l@) =~= self.lines@.take(
                (i - 1) as int,
            ).map_values(|l: Line| l@).push(self.lines@[i - 1]@));
        }
        assert(self.lines@.take(self.lines@.len() as int) == self.lines@);
        IniDoc { lines: out }
    }
}

/// The position of the first `=`, if any.
pub open spec fn eq_pos(t: Seq<char>) -> nat {
    pos_of(t, '=')
}

/// How one raw line is read.
pub open spec fn parse_line(raw: Seq<char>) -> IniLine {
    let t = trim(raw);
    if t.len() == 0 || t[0] == '#' || t[0] == ';' {
        IniLine::Other(raw)
    } else if t.len() >= 2 && t[0] == '[' && t.last() == ']' {
        IniLine::Section(trim(t.subrange(1, t.len() - 1)), raw)
    } else if eq_pos(t) < t.len() {
        IniLine::Entry(trim(t.take(eq_pos(t) as int)), trim(t.skip((eq_pos(t) + 1) as int)))
    } else {
        IniLine::Other(raw)
    }
}

/// The document `IniDoc::parse` builds from `text`.
pub open spec fn parse_doc(text: Seq<char>) -> Seq<IniLine> {
    lines(text).map_values(|l: Seq<char>| parse_line(l))
}

/// The text of one line (without its newline).
pub open spec fn render_line(l: IniLine) -> Seq<char> {
    match l {
        IniLine::Other(t) => t,
        IniLine::Section(_, raw) => raw,
        IniLine::Entry(k, v) => k + seq!['='] + v,
    }
}

/// The header line `set` writes for a section it creates: `[name]`.
pub open spec fn header_line(name: Seq<char>) -> IniLine {
    IniLine::Section(name, seq!['['] + name + seq![']'])
}

/// The text `IniDoc::render` produces: each line followed by `\n`.
pub open spec fn render_doc(d: Seq<IniLine>) -> Seq<char>
    decreases d.len(),
{
    if d.len() == 0 {
        seq![]
    } else {
        render_doc(d.drop_last()) + render_line(d.last()) + seq!['\n']
    }
}

/// The section in effect at line `i`: the name of the last header before it.
pub open spec fn cur_section(d: Seq<IniLine>, i: int) -> Option<Seq<char>>
    decreases i,
{
    if i <= 0 {
        None
    } else {
        match d[i - 1] {
            IniLine::Section(n, _) => Some(n),
            _ => cur_section(d, i - 1),
        }
    }
}

/// Whether line `i` is an entry for `key` (ASCII case-insensitive) in
/// `section`.
pub open spec fn is_match(d: Seq<IniLine>, section: Seq<char>, key: Seq<char>, i: int) -> bool {
    &&& 0 <= i < d.len()
    &&& d[i] matches IniLine::Entry(k, _) && eq_ignore_case(k, key)
    &&& cur_section(d, i) == Some(section)
}

/// The index of the first entry for `key` in `section`.
pub open spec fn find_spec(d: Seq<IniLine>, section: Seq<char>, key: Seq<char>) -> Option<int> {
    if exists|i: int| is_match(d, section, key, i) {
        Some(
            choose|i: int|
                is_match(d, section, key, i) && forall|j: int|
                    0 <= j < i ==> !is_match(d, section, key, j),
        )
    } else {
        None
    }
}

/// The value of `key` within `section`.
pub open spec fn get_spec(d: Seq<IniLine>, section: Seq<char>, key: Seq<char>) -> Option<
    Seq<char>,
> {
    match find_spec(d, section, key) {
        Some(i) => match d[i] {
            IniLine::Entry(_, v) => Some(v),
            _ => None,
        },
        None => None,
    }
}

/// Whether line `i` belongs to `section`: its header, or an entry under it.
pub open spec fn in_section(d: Seq<IniLine>, section: Seq<char>, i: int) -> bool {
    &&& 0 <= i < d.len()
    &&& match d[i] {
        IniLine::Section(n, _) => n == section,
        IniLine::Entry(_, _) => cur_section(d, i) == Some(section),
        IniLine::Other(_) => false,
    }
}

/// Where a new entry of `section` goes: just after the last line belonging to
/// the section, or `None` when the document has no such section.
pub open spec fn insert_pos(d: Seq<IniLine>, section: Seq<char>) -> Option<int> {
    if exists|i: int| in_section(d, section, i) {
        Some(
            1 + choose|i: int|
                in_section(d, section, i) && forall|j: int|
                    i < j < d.len() ==> !in_section(d, section, j),
        )
    } else {
        None
    }
}

/// The document after `set(section, key, value)`: an empty (trimmed) value
/// removes the first matching entry; otherwise that entry's value is replaced,
/// or a new entry is added at the end of the section (creating the section at
/// the end of the document when it is missing).
pub open spec fn set_spec(d: Seq<IniLine>, section: Seq<char>, key: Seq<char>, value: Seq<char>) -> Seq<
    IniLine,
> {
    let v = trim(value);
    match find_spec(d, section, key) {
        Some(i) => if v.len() == 0 {
            d.remove(i)
        } else {
            match d[i] {
                IniLine::Entry(k, _) => d.update(i, IniLine::Entry(k, v)),
                _ => d,
            }
        },
        None => if v.len() == 0 {
            d
        } else {
            match insert_pos(d, section) {
                Some(p) => d.insert(p, IniLine::Entry(key, v)),
                None => d.push(header_line(section)).push(IniLine::Entry(key, v)),
            }
        },
    }
}

// ---------------------------------------------------------------------------
// Lemmas about sections and matches
// ---------------------------------------------------------------------------
proof fn lemma_first_match_exists(d: Seq<IniLine>, section: Seq<char>, key: Seq<char>, i: int)
    requires
        is_match(d, section, key, i),
    ensures
        exists|m: int|
            is_match(d, section, key, m) && forall|j: int|
                0 <= j < m ==> !is_match(d, section, key, j),
    decreases i,
{
    if exists|j: int| 0 <= j < i && is_match(d, section, key, j) {
        let j = choose|j: int| 0 <= j < i && is_match(d, section, key, j);
        lemma_first_match_exists(d, section, key, j);
    } else {
        assert(forall|j: int| 0 <= j < i ==> !is_match(d, section, key, j));
    }
}

/// `find_spec` is the first match.
proof fn lemma_find_spec(d: Seq<IniLine>, section: Seq<char>, key: Seq<char>)
    ensures
        match find_spec(d, section, key) {
            Some(i) => is_match(d, section, key, i) && forall|j: int|
                0 <= j < i ==> !is_match(d, section, key, j),
            None => forall|j: int| !is_match(d, section, key, j),
        },
{
    if exists|i: int| is_match(d, section, key, i) {
        let i = choose|i: int| is_match(d, section, key, i);
        lemma_first_match_exists(d, section, key, i);
    }
}

/// A first match identifies `find_spec`.
proof fn lemma_find_spec_at(d: Seq<IniLine>, section: Seq<char>, key: Seq<char>, i: int)
    requires
        is_match(d, section, key, i),
        forall|j: int| 0 <= j < i ==> !is_match(d, section, key, j),
    ensures
        find_spec(d, section, key) == Some(i),
{
    lemma_find_spec(d, section, key);
    let m = find_spec(d, section, key).unwrap();
    if m < i {
    } else if m > i {
    }
}

proof fn lemma_last_in_section_exists(d: Seq<IniLine>, section: Seq<char>, i: int)
    requires
        in_section(d, section, i),
    ensures
        exists|m: int|
            in_section(d, section, m) && forall|j: int|
                m < j < d.len() ==> !in_section(d, section, j),
    decreases d.len() - i,
{
    if exists|j: int| i < j < d.len() && in_section(d, section, j) {
        let j = choose|j: int| i < j < d.len() && in_section(d, section, j);
        lemma_last_in_section_exists(d, section, j);
    } else {
        assert(forall|j: int| i < j < d.len() ==> !in_section(d, section, j));
    }
}

proof fn lemma_insert_pos(d: Seq<IniLine>, section: Seq<char>)
    ensures
        match insert_pos(d, section) {
            Some(p) => 1 <= p <= d.len() && in_section(d, section, p - 1) && forall|j: int|
                p <= j < d.len() ==> !in_section(d, section, j),
            None => forall|j: int| !in_section(d, section, j),
        },
{
    if exists|i: int| in_section(d, section, i) {
        let i = choose|i: int| in_section(d, section, i);
        lemma_last_in_section_exists(d, section, i);
    }
}

proof fn lemma_insert_pos_at(d: Seq<IniLine>, section: Seq<char>, m: int)
    requires
        in_section(d, section, m),
        forall|j: int| m < j < d.len() ==> !in_section(d, section, j),
    ensures
        insert_pos(d, section) == Some(m + 1),
{
    lemma_insert_pos(d, section);
    let p = insert_pos(d, section).unwrap();
    if p - 1 < m {
    } else if p - 1 > m {
    }
}

// ---------------------------------------------------------------------------
// Executable parsing and rendering
// ---------------------------------------------------------------------------
fn parse_line_exec(raw: &[char]) -> (r: Line)
    ensures
        r@ == parse_line(raw@),
{
    let t = trim_chars(raw);
    let n = t.len();
    if n == 0 || t[0] == '#' || t[0] == ';' {
        return Line::Other(from_chars(raw));
    }
    if n >= 2 && t[0] == '[' && t[n - 1] == ']' {
        let inner = copy_range(t.as_slice(), 1, n - 1);
        let name = trim_chars(inner.as_slice());
        return Line::Section { name: from_chars(name.as_slice()), raw: from_chars(raw) };
    }
    let p = find_char(t.as_slice(), 0, '=');
    assert(t@.skip(0) == t@);
    if p < n {
        let k = trim_chars(copy_range(t.as_slice(), 0, p).as_slice());
        let v = trim_chars(copy_range(t.as_slice(), p + 1, n).as_slice());
        assert(t@.subrange(0, p as int) == t@.take(p as int));
        assert(t@.subrange(p + 1, n as int) == t@.skip(p + 1));
        Line::Entry { key: from_chars(k.as_slice()), value: from_chars(v.as_slice()) }
    } else {
        Line::Other(from_chars(raw))
    }
}

impl IniDoc {
    /// Parse INI text. Unrecognized lines are preserved verbatim.
    pub fn parse(text: &str) -> (r: IniDoc)
        ensures
            r@ == parse_doc(text@),
    {
        let chars = to_chars(text);
        let ls = split_lines(chars.as_slice());
        let ghost lv = views(ls@);
        let mut out: Vec<Line> = Vec::new();
        let mut i: usize = 0;
        while i < ls.len()
            invariant
                i <= ls@.len(),
                lv == views(ls@),
                lv == lines(text@),
                out@.map_values(|l: Line| l@) == lv.take(i as int).map_values(
                    |l: Seq<char>| parse_line(l),
                ),
            decreases ls@.len() - i,
        {
            let line = parse_line_exec(ls[i].as_slice());
            assert(lv[i as int] == ls@[i as int]@);
            out.push(line);
            i = i + 1;
            assert(lv.take(i as int).map_values(|l: Seq<char>| parse_line(l)) =~= lv.take(
                (i - 1) as int,
            ).map_values(|l: Seq<char>| parse_line(l)).push(parse_line(lv[i - 1])));
            assert(out@.map_values(|l: Line| l@) =~= out@.drop_last().map_values(|l: Line| l@).push(
                out@.last()@,
            ));
        }
        assert(lv.take(ls@.len() as int) == lv);
        IniDoc { lines: out }
    }

    /// Render back to INI text (every line newline-terminated).
    pub fn render(&self) -> (r: String)
        ensures
            r@ == render_doc(self@),
    {
        let ghost d = self@;
        let mut out: Vec<char> = Vec::new();
        let mut i: usize = 0;
        while i < self.lines.len()
            invariant
                i <= self.lines@.len(),
                d == self.lines@.map_values(|l: Line| l@),
                out@ == render_doc(d.take(i as int)),
            decreases self.lines@.len() - i,
        {
            match &self.lines[i] {
                Line::Other(t) => push_str_chars(&mut out, t.as_str()),
                Line::Section { raw, .. } => push_str_chars(&mut out, raw.as_str()),
                Line::Entry { key, value } => {
                    push_str_chars(&mut out, key.as_str());
                    out.push('=');
                    push_str_chars(&mut out, value.as_str());
                },
            }
            out.push('\n');
            proof {
                let t = d.take(i + 1);
                assert(t.drop_last() == d.take(i as int));
                assert(t.last() == self.lines@[i as int]@);
            }
            i = i + 1;
        }
        assert(d.take(self.lines@.len() as int) == d);
        from_chars(out.as_slice())
    }

    /// Whether the current section (tracked by the caller) changes at line `i`,
    /// and to which answer for "is it `sec`".
    fn step_section(&self, i: usize, sec: &[char], cur_is: bool) -> (r: bool)
        requires
            i < self@.len(),
            cur_is == (cur_section(self@, i as int) == Some(sec@)),
        ensures
            r == (cur_section(self@, i + 1) == Some(sec@)),
    {
        assert(self@[i as int] == self.lines@[i as int]@);
        match &self.lines[i] {
            Line::Section { name, .. } => {
                let nc = to_chars(name.as_str());
                chars_eq(nc.as_slice(), sec)
            },
            _ => cur_is,
        }
    }

    fn find_entry(&self, sec: &[char], key: &[char]) -> (r: Option<usize>)
        ensures
            match r {
                Some(i) => find_spec(self@, sec@, key@) == Some(i as int) && i < self@.len(),
                None => find_spec(self@, sec@, key@).is_none(),
            },
    {
        let ghost d = self@;
        let mut cur_is = false;
        let mut i: usize = 0;
        while i < self.lines.len()
            invariant
                d == self@,
                self@.len() == self.lines@.len(),
                i <= d.len(),
                cur_is == (cur_section(d, i as int) == Some(sec@)),
                forall|j: int| 0 <= j < i ==> !is_match(d, sec@, key@, j),
            decreases d.len() - i,
        {
            assert(d[i as int] == self.lines@[i as int]@);
            match &self.lines[i] {
                Line::Entry { key: k, .. } => {
                    if cur_is {
                        let kc = to_chars(k.as_str());
                        if eq_ignore_case_exec(kc.as_slice(), key) {
                            proof {
                                lemma_find_spec_at(d, sec@, key@, i as int);
                            }
                            return Some(i);
                        }
                    }
                },
                _ => {},
            }
            cur_is = self.step_section(i, sec, cur_is);
            i = i + 1;
        }
        proof {
            lemma_find_spec(d, sec@, key@);
        }
        None
    }

    /// The value of `key` within `section` (ASCII case-insensitive key match).
    pub fn get(&self, section: &str, key: &str) -> (r: Option<&str>)
        ensures
            match r {
                Some(v) => get_spec(self@, section@, key@) == Some(v@),
                None => get_spec(self@, section@, key@).is_none(),
            },
    {
        let sec = to_chars(section);
        let k = to_chars(key);
        match self.find_entry(sec.as_slice(), k.as_slice()) {
            Some(i) => {
                assert(self@[i as int] == self.lines@[i as int]@);
                match &self.lines[i] {
                    Line::Entry { value, .. } => Some(value.as_str()),
                    _ => None,
                }
            },
            None => None,
        }
    }

    /// Index just after the last line of `section`, or `None` if absent.
    fn section_insert_index(&self, sec: &[char]) -> (r: Option<usize>)
        ensures
            match r {
                Some(p) => insert_pos(self@, sec@) == Some(p as int),
                None => insert_pos(self@, sec@).is_none(),
            },
    {
        let ghost d = self@;
        let mut cur_is = false;
        let mut last: Option<usize> = None;
        let mut i: usize = 0;
        while i < self.lines.len()
            invariant
                d == self@,
                self@.len() == self.lines@.len(),
                i <= d.len(),
                cur_is == (cur_section(d, i as int) == Some(sec@)),
                match last {
                    Some(m) => m < i && in_section(d, sec@, m as int) && forall|j: int|
                        m < j < i ==> !in_section(d, sec@, j),
                    None => forall|j: int| 0 <= j < i ==> !in_section(d, sec@, j),
                },
            decreases d.len() - i,
        {
            assert(d[i as int] == self.lines@[i as int]@);
            let next_is = self.step_section(i, sec, cur_is);
            match &self.lines[i] {
                Line::Section { .. } => {
                    if next_is {
                        last = Some(i);
                    }
                },
                Line::Entry { .. } => {
                    if cur_is {
                        last = Some(i);
                    }
                },
                Line::Other(_) => {},
            }
            cur_is = next_is;
            i = i + 1;
        }
        match last {
            Some(m) => {
                proof {
                    lemma_insert_pos_at(d, sec@, m as int);
                }
                Some(m + 1)
            },
            None => {
                proof {
                    lemma_insert_pos(d, sec@);
                }
                None
            },
        }
    }

    /// Set `key=value` within `section`, creating the section/entry if needed.
    /// An empty (trimmed) value removes the key, so cleared form fields do not
    /// write blank entries.
    #[verifier::rlimit(40)]
    pub fn set(&mut self, section: &str, key: &str, value: &str)
        ensures
            final(self)@ == set_spec(old(self)@, section@, key@, value@),
    {
        let ghost d = self@;
        let vc = to_chars(value);
        let v = trim_chars(vc.as_slice());
        let sec = to_chars(section);
        let kc = to_chars(key);
        match self.find_entry(sec.as_slice(), kc.as_slice()) {
            Some(index) => {
                if v.len() == 0 {
                    self.lines.remove(index);
                    assert(self@ =~= d.remove(index as int));
                } else {
                    assert(d[index as int] == self.lines@[index as int]@);
                    let new_line = match &self.lines[index] {
                        Line::Entry { key: k, .. } => Some(
                            Line::Entry { key: k.clone(), value: from_chars(v.as_slice()) },
                        ),
                        _ => None,
                    };
                    match new_line {
                        Some(l) => {
                            self.lines.set(index, l);
                            assert(self@ =~= d.update(index as int, l@));
                        },
                        None => {},
                    }
                }
                return ;
            },
            None => {},
        }
        if v.len() == 0 {
            return ;
        }
        let entry = Line::Entry { key: from_chars(kc.as_slice()), value: from_chars(v.as_slice()) };
        match self.section_insert_index(sec.as_slice()) {
            Some(index) => {
                proof {
                    lemma_insert_pos(d, sec@);
                }
                self.lines.insert(index, entry);
                assert(self@ =~= d.insert(index as int, IniLine::Entry(key@, trim(value@))));
            },
            None => {
                let mut raw: Vec<char> = vec!['['];
                push_all(&mut raw, sec.as_slice());
                raw.push(']');
                assert(raw@ =~= seq!['['] + section@ + seq![']']);
                let header = Line::Section { name: from_chars(sec.as_slice()), raw: from_chars(raw.as_slice()) };
                self.lines.push(header);
                self.lines.push(entry);
                assert(self@ =~= d.push(header_line(section@)).push(
                    IniLine::Entry(key@, trim(value@)),
                ));
            },
        }
    }
}

} // verus!
