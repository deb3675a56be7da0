//! Parsing of `wsl --list` output (and of in-distro `df` / `/proc/meminfo`).
//!
//! Deliberately locale-independent: the (localized) STATE column of
//! `wsl -l -v` is ignored, and the header is skipped by requiring the last
//! token to be a numeric version. Running state comes separately from
//! `wsl --list --running`.
use vstd::prelude::*;

use crate::text::{
    all_digits, copy_range, digits_value, eq_ignore_case, eq_ignore_case_exec, from_chars, is_ws,
    lemma_lead_ws_at, lemma_tokens_blank, lemma_tokens_cons, lines, parse_u64, parse_u64_spec,
    parse_u8, parse_u8_spec, split_lines, split_ws, starts_with, starts_with_exec, to_chars, tokens,
    trim, trim_chars, trim_end, trim_end_chars, trim_start, trim_start_chars, views,
};
use crate::wsl::model::OnlineDistro;

verus! {

/// One row of `wsl -l -v`, before merging with registry/running data.
#[derive(Debug, PartialEq, Eq)]
pub struct RawDistroRow {
    pub name: String,
    pub version: u8,
    pub is_default: bool,
}

impl Clone for RawDistroRow {
    fn clone(&self) -> (r: Self)
        ensures
            r == *self,
    {
        RawDistroRow { name: self.name.clone(), version: self.version, is_default: self.is_default }
    }
}

impl View for RawDistroRow {
    type V = (Seq<char>, u8, bool);

    open spec fn view(&self) -> (Seq<char>, u8, bool) {
        (self.name@, self.version, self.is_default)
    }
}

/// The row that one line of `wsl -l -v` describes, if any: a leading `*` marks
/// the default, the first token is the name and the last token the version.
pub open spec fn verbose_row(line: Seq<char>) -> Option<(Seq<char>, u8, bool)> {
    let t = trim_start(line);
    let is_default = t.len() > 0 && t[0] == '*';
    let rest = if is_default {
        t.drop_first()
    } else {
        t
    };
    let toks = tokens(rest);
    if toks.len() < 2 {
        None
    } else {
        match parse_u8_spec(toks.last()) {
            Some(v) => Some((toks[0], v, is_default)),
            None => None,
        }
    }
}

/// Whether every character of `s` is whitespace.
pub open spec fn blank(s: Seq<char>) -> bool {
    forall|i: int| 0 <= i < s.len() ==> is_ws(#[trigger] s[i])
}

/// Whether `s` is one token: not empty, without whitespace.
pub open spec fn word(s: Seq<char>) -> bool {
    s.len() > 0 && forall|i: int| 0 <= i < s.len() ==> !is_ws(#[trigger] s[i])
}

/// A `wsl -l -v` table line: padding, an optional `*` mark, then the name,
/// the state and the version, separated by whitespace.
pub open spec fn table_line(
    star: bool,
    pad: Seq<char>,
    star_gap: Seq<char>,
    name: Seq<char>,
    gap1: Seq<char>,
    state: Seq<char>,
    gap2: Seq<char>,
    version: Seq<char>,
    tail: Seq<char>,
) -> Seq<char> {
    pad + (if star {
        seq!['*'] + star_gap
    } else {
        seq![]
    }) + name + gap1 + state + gap2 + version + tail
}

/// A table line gives the row of its name, the number written as its last
/// column, and whether it is marked `*` as the default.
pub proof fn law_verbose_row_reads_its_columns(
    star: bool,
    pad: Seq<char>,
    star_gap: Seq<char>,
    name: Seq<char>,
    gap1: Seq<char>,
    state: Seq<char>,
    gap2: Seq<char>,
    version: Seq<char>,
    tail: Seq<char>,
)
    requires
        blank(pad),
        blank(star_gap),
        blank(gap1) && gap1.len() > 0,
        blank(gap2) && gap2.len() > 0,
        blank(tail),
        word(name),
        word(state),
        word(version),
        !star ==> name[0] != '*',
        all_digits(version),
        digits_value(version) <= 255,
    ensures
        verbose_row(table_line(star, pad, star_gap, name, gap1, state, gap2, version, tail))
            == Some((name, digits_value(version) as u8, star)),
{
    let line = table_line(star, pad, star_gap, name, gap1, state, gap2, version, tail);
    let after_state = gap2 + version + tail;
    let after_name = gap1 + state + after_state;
    lemma_tokens_blank(tail);
    lemma_tokens_cons(gap2, version, tail);
    assert(tokens(after_state) == seq![version]) by {
        assert(gap2 + version + tail =~= after_state);
        assert(seq![version] + Seq::<Seq<char>>::empty() =~= seq![version]);
    }
    lemma_tokens_cons(gap1, state, after_state);
    assert(gap1 + state + after_state =~= after_name);
    assert(after_state[0] == gap2[0]);
    assert(after_name[0] == gap1[0]);
    let cols = seq![name, state, version];
    assert(seq![state] + seq![version] =~= seq![state, version]);
    let lead = if star {
        seq!['*'] + star_gap
    } else {
        seq![]
    };
    assert(line =~= pad + lead + (name + after_name));
    let x = lead + name + after_name;
    assert forall|j: int| 0 <= j < pad.len() implies is_ws(#[trigger] line[j]) by {
        assert(line[j] == pad[j]);
    }
    assert(line[pad.len() as int] == x[0]);
    if star {
        assert(x[0] == '*');
    } else {
        assert(x[0] == name[0]);
    }
    lemma_lead_ws_at(line, pad.len() as int);
    let t = trim_start(line);
    assert(t =~= lead + name + after_name);
    if star {
        assert(t[0] == '*');
        assert(t.drop_first() =~= star_gap + name + after_name);
        lemma_tokens_cons(star_gap, name, after_name);
    } else {
        assert(t =~= Seq::<char>::empty() + name + after_name);
        assert(t[0] == name[0]);
        lemma_tokens_cons(Seq::<char>::empty(), name, after_name);
    }
    assert(seq![name] + seq![state, version] =~= cols);
    assert(version[0] != '+');
}

/// The rows of all lines, in order.
pub open spec fn verbose_rows(ls: Seq<Seq<char>>) -> Seq<(Seq<char>, u8, bool)>
    decreases ls.len(),
{
    if ls.len() == 0 {
        seq![]
    } else {
        let prev = verbose_rows(ls.drop_last());
        match verbose_row(ls.last()) {
            Some(r) => prev.push(r),
            None => prev,
        }
    }
}

pub open spec fn row_views(v: Seq<RawDistroRow>) -> Seq<(Seq<char>, u8, bool)> {
    v.map_values(|r: RawDistroRow| r@)
}

fn verbose_row_exec(line: &[char]) -> (r: Option<RawDistroRow>)
    ensures
        match r {
            Some(row) => verbose_row(line@) == Some(row@),
            None => verbose_row(line@).is_none(),
        },
{
    let t = trim_start_chars(line);
    let is_default = t.len() > 0 && t[0] == '*';
    let rest = if is_default {
        copy_range(t.as_slice(), 1, t.len())
    } else {
        t.clone()
    };
    assert(is_default ==> rest@ == t@.drop_first());
    let toks = split_ws(rest.as_slice());
    assert(views(toks@).len() == toks@.len());
    if toks.len() < 2 {
        return None;
    }
    let last = toks.len() - 1;
    assert(views(toks@)[last as int] == toks@[last as int]@);
    assert(views(toks@).last() == toks@[last as int]@);
    match parse_u8(toks[last].as_slice()) {
        Some(v) => {
            assert(views(toks@)[0] == toks@[0]@);
            Some(RawDistroRow { name: from_chars(toks[0].as_slice()), version: v, is_default })
        },
        None => None,
    }
}

/// Parse decoded `wsl -l -v` text. Lines whose last token is not a number
/// (the header and blank lines) are skipped.
pub fn parse_list_verbose(text: &str) -> (r: Vec<RawDistroRow>)
    ensures
        row_views(r@) == verbose_rows(lines(text@)),
{
    let chars = to_chars(text);
    let ls = split_lines(chars.as_slice());
    let ghost lv = views(ls@);
    let mut rows: Vec<RawDistroRow> = Vec::new();
    let mut i: usize = 0;
    while i < ls.len()
        invariant
            i <= ls@.len(),
            lv == views(ls@),
            lv == lines(text@),
            row_views(rows@) == verbose_rows(lv.take(i as int)),
        decreases ls@.len() - i,
    {
        assert(lv.take(i + 1).drop_last() == lv.take(i as int));
        assert(lv.take(i + 1).last() == ls@[i as int]@);
        match verbose_row_exec(ls[i].as_slice()) {
            Some(row) => {
                assert(row_views(rows@.push(row)) == row_views(rows@).push(row@));
                rows.push(row);
            },
            None => {},
        }
        i = i + 1;
    }
    assert(lv.take(ls@.len() as int) == lv);
    rows
}

// ---------------------------------------------------------------------------
// `wsl --list --running --quiet`
// ---------------------------------------------------------------------------
/// The distro names in `wsl --list --running --quiet` output: every line,
/// trimmed, that is not blank.
pub open spec fn running_names(ls: Seq<Seq<char>>) -> Seq<Seq<char>>
    decreases ls.len(),
{
    if ls.len() == 0 {
        seq![]
    } else {
        let prev = running_names(ls.drop_last());
        let t = trim(ls.last());
        if t.len() > 0 {
            prev.push(t)
        } else {
            prev
        }
    }
}

/// The characters of each string.
pub open spec fn name_views(v: Seq<String>) -> Seq<Seq<char>> {
    v.map_values(|s: String| s@)
}

/// Parse decoded `wsl --list --running --quiet` text into distro names.
pub fn parse_running(text: &str) -> (r: Vec<String>)
    ensures
        name_views(r@) == running_names(lines(text@)),
{
    let chars = to_chars(text);
    let ls = split_lines(chars.as_slice());
    let ghost lv = views(ls@);
    let mut names: Vec<String> = Vec::new();
    let mut i: usize = 0;
    while i < ls.len()
        invariant
            i <= ls@.len(),
            lv == views(ls@),
            lv == lines(text@),
            name_views(names@) == running_names(lv.take(i as int)),
        decreases ls@.len() - i,
    {
        assert(lv.take(i + 1).drop_last() == lv.take(i as int));
        assert(lv.take(i + 1).last() == ls@[i as int]@);
        let t = trim_chars(ls[i].as_slice());
        if t.len() > 0 {
            let s = from_chars(t.as_slice());
            assert(name_views(names@.push(s)) =~= name_views(names@).push(s@));
            names.push(s);
        }
        i = i + 1;
    }
    assert(lv.take(ls@.len() as int) == lv);
    names
}

// ---------------------------------------------------------------------------
// `wsl --list --online`
// ---------------------------------------------------------------------------
/// Number of leading `*` characters.
pub open spec fn lead_stars(s: Seq<char>) -> nat
    decreases s.len(),
{
    if s.len() > 0 && s[0] == '*' {
        1 + lead_stars(s.drop_first())
    } else {
        0
    }
}

/// `trim_start_matches('*')`.
pub open spec fn trim_stars(s: Seq<char>) -> Seq<char> {
    s.skip(lead_stars(s) as int)
}

pub proof fn lemma_lead_stars_at(s: Seq<char>, i: int)
    requires
        0 <= i <= s.len(),
        forall|j: int| 0 <= j < i ==> #[trigger] s[j] == '*',
        i < s.len() ==> s[i] != '*',
    ensures
        lead_stars(s) == i,
    decreases s.len(),
{
    if i > 0 {
        assert forall|j: int| 0 <= j < i - 1 implies #[trigger] s.drop_first()[j] == '*' by {
            assert(s.drop_first()[j] == s[j + 1]);
        }
        lemma_lead_stars_at(s.drop_first(), i - 1);
    }
}

/// Whether two spaces start at position `i`.
pub open spec fn double_space_at(s: Seq<char>, i: int) -> bool {
    0 <= i && i + 1 < s.len() && s[i] == ' ' && s[i + 1] == ' '
}

/// Split a line into `(first, rest)` at its first run of two or more spaces;
/// `None` when there is no such run or either side would be empty.
pub open spec fn two_columns(line: Seq<char>) -> Option<(Seq<char>, Seq<char>)> {
    if exists|i: int| double_space_at(line, i) {
        let i = choose|i: int|
            double_space_at(line, i) && forall|j: int| 0 <= j < i ==> !double_space_at(line, j);
        let name = trim_end(line.take(i));
        let friendly = trim_start(line.skip(i));
        if name.len() == 0 || friendly.len() == 0 {
            None
        } else {
            Some((name, friendly))
        }
    } else {
        None
    }
}

/// A plausible ASCII distro install id.
pub open spec fn is_id_char(c: char) -> bool {
    ('a' <= c && c <= 'z') || ('A' <= c && c <= 'Z') || ('0' <= c && c <= '9') || c == '.' || c
        == '-' || c == '_'
}

pub open spec fn is_distro_id(s: Seq<char>) -> bool {
    s.len() > 0 && forall|i: int| 0 <= i < s.len() ==> is_id_char(#[trigger] s[i])
}

/// The installable distribution one line of `wsl --list --online` names.
pub open spec fn online_row(raw: Seq<char>) -> Option<(Seq<char>, Seq<char>)> {
    let line = trim(trim_stars(trim_start(raw)));
    if line.len() == 0 {
        None
    } else {
        match two_columns(line) {
            Some((name, friendly)) => if !is_distro_id(name) || eq_ignore_case(name, "NAME"@) {
                None
            } else {
                Some((name, friendly))
            },
            None => None,
        }
    }
}

pub open spec fn online_rows(ls: Seq<Seq<char>>) -> Seq<(Seq<char>, Seq<char>)>
    decreases ls.len(),
{
    if ls.len() == 0 {
        seq![]
    } else {
        let prev = online_rows(ls.drop_last());
        match online_row(ls.last()) {
            Some(r) => prev.push(r),
            None => prev,
        }
    }
}

pub open spec fn online_views(v: Seq<OnlineDistro>) -> Seq<(Seq<char>, Seq<char>)> {
    v.map_values(|d: OnlineDistro| (d.name@, d.friendly@))
}

fn is_distro_id_exec(s: &[char]) -> (r: bool)
    ensures
        r == is_distro_id(s@),
{
    if s.len() == 0 {
        return false;
    }
    let mut i: usize = 0;
    while i < s.len()
        invariant
            i <= s@.len(),
            forall|j: int| 0 <= j < i ==> is_id_char(#[trigger] s@[j]),
        decreases s@.len() - i,
    {
        let c = s[i];
        if !(('a' <= c && c <= 'z') || ('A' <= c && c <= 'Z') || ('0' <= c && c <= '9') || c
            == '.' || c == '-' || c == '_') {
            return false;
        }
        i = i + 1;
    }
    true
}

fn two_columns_exec(line: &[char]) -> (r: Option<(Vec<char>, Vec<char>)>)
    ensures
        match r {
            Some((a, b)) => two_columns(line@) == Some((a@, b@)),
            None => two_columns(line@).is_none(),
        },
{
    let n = line.len();
    let mut i: usize = 0;
    while i < n && i + 1 < n && !(line[i] == ' ' && line[i + 1] == ' ')
        invariant
            n == line@.len(),
            i <= n,
            forall|j: int| 0 <= j < i ==> !double_space_at(line@, j),
        decreases n - i,
    {
        i = i + 1;
    }
    if i >= n || i + 1 >= n {
        assert forall|j: int| !double_space_at(line@, j) by {
            if 0 <= j < i {
            }
        }
        return None;
    }
    assert(double_space_at(line@, i as int));
    let ghost k = choose|k: int|
        double_space_at(line@, k) && forall|j: int| 0 <= j < k ==> !double_space_at(line@, j);
    assert(k == i) by {
        if k < i {
        } else if k > i {
            assert(!double_space_at(line@, i as int));
        }
    }
    let name = trim_end_chars(copy_range(line, 0, i).as_slice());
    let friendly = trim_start_chars(copy_range(line, i, n).as_slice());
    assert(line@.subrange(0, i as int) == line@.take(i as int));
    assert(line@.subrange(i as int, n as int) == line@.skip(i as int));
    if name.len() == 0 || friendly.len() == 0 {
        return None;
    }
    Some((name, friendly))
}


fn trim_stars_exec(v: &[char]) -> (r: Vec<char>)
    ensures
        r@ == trim_stars(v@),
{
    let mut a: usize = 0;
    while a < v.len() && v[a] == '*'
        invariant
            a <= v@.len(),
            forall|j: int| 0 <= j < a ==> #[trigger] v@[j] == '*',
        decreases v@.len() - a,
    {
        a = a + 1;
    }
    proof {
        lemma_lead_stars_at(v@, a as int);
    }
    copy_range(v, a, v.len())
}

fn online_row_exec(raw: &[char]) -> (r: Option<OnlineDistro>)
    ensures
        match r {
            Some(d) => online_row(raw@) == Some((d.name@, d.friendly@)),
            None => online_row(raw@).is_none(),
        },
{
    let a = trim_start_chars(raw);
    let b = trim_stars_exec(a.as_slice());
    let line = trim_chars(b.as_slice());
    if line.len() == 0 {
        return None;
    }
    match two_columns_exec(line.as_slice()) {
        Some((name, friendly)) => {
            let header = to_chars("NAME");
            if !is_distro_id_exec(name.as_slice()) || eq_ignore_case_exec(
                name.as_slice(),
                header.as_slice(),
            ) {
                None
            } else {
                Some(
                    OnlineDistro {
                        name: from_chars(name.as_slice()),
                        friendly: from_chars(friendly.as_slice()),
                    },
                )
            }
        },
        None => None,
    }
}

/// Parse decoded `wsl --list --online` text into installable distributions.
///
/// Only lines that split into two columns (on a run of two or more spaces)
/// whose first column is an ASCII distro id are kept, which skips the prose
/// intro and the (localized) header without depending on their text.
pub fn parse_list_online(text: &str) -> (r: Vec<OnlineDistro>)
    ensures
        online_views(r@) == online_rows(lines(text@)),
{
    let chars = to_chars(text);
    let ls = split_lines(chars.as_slice());
    let ghost lv = views(ls@);
    let mut out: Vec<OnlineDistro> = Vec::new();
    let mut i: usize = 0;
    while i < ls.len()
        invariant
            i <= ls@.len(),
            lv == views(ls@),
            lv == lines(text@),
            online_views(out@) == online_rows(lv.take(i as int)),
        decreases ls@.len() - i,
    {
        assert(lv.take(i + 1).drop_last() == lv.take(i as int));
        assert(lv.take(i + 1).last() == ls@[i as int]@);
        match online_row_exec(ls[i].as_slice()) {
            Some(d) => {
                assert(online_views(out@.push(d)) == online_views(out@).push((d.name@, d.friendly@)));
                out.push(d);
            },
            None => {},
        }
        i = i + 1;
    }
    assert(lv.take(ls@.len() as int) == lv);
    out
}

// ---------------------------------------------------------------------------
// `df -kP /` and `/proc/meminfo`
// ---------------------------------------------------------------------------
/// The `(used, total)` KiB figures of one `df -kP` data line, if it has them.
pub open spec fn df_line(line: Seq<char>) -> Option<(u64, u64)> {
    let toks = tokens(line);
    if toks.len() >= 4 {
        match (parse_u64_spec(toks[1]), parse_u64_spec(toks[2])) {
            (Some(total), Some(used)) => Some((used, total)),
            _ => None,
        }
    } else {
        None
    }
}

/// The first data line (after the header) with `(used, total)` KiB figures.
pub open spec fn df_first(ls: Seq<Seq<char>>) -> Option<(u64, u64)>
    decreases ls.len(),
{
    if ls.len() == 0 {
        None
    } else {
        match df_line(ls[0]) {
            Some(r) => Some(r),
            None => df_first(ls.drop_first()),
        }
    }
}

/// What `parse_df` reads from `df -kP /` output, in KiB.
pub open spec fn df_kib(text: Seq<char>) -> Option<(u64, u64)> {
    if lines(text).len() == 0 {
        None
    } else {
        df_first(lines(text).skip(1))
    }
}

/// The KiB value of the first `MemTotal:` line: `None` when there is no such
/// line or its first token is not a number.
pub open spec fn meminfo_first(ls: Seq<Seq<char>>) -> Option<u64>
    decreases ls.len(),
{
    if ls.len() == 0 {
        None
    } else if starts_with(ls[0], "MemTotal:"@) {
        let toks = tokens(ls[0].skip("MemTotal:"@.len() as int));
        if toks.len() == 0 {
            None
        } else {
            parse_u64_spec(toks[0])
        }
    } else {
        meminfo_first(ls.drop_first())
    }
}

/// What `parse_meminfo_total` reads from `/proc/meminfo`, in KiB.
pub open spec fn meminfo_kib(text: Seq<char>) -> Option<u64> {
    meminfo_first(lines(text))
}

/// The `(used, total)` KiB figures of `df -kP /` output: those of the first
/// line after the header that has numbers in the total and used columns.
pub fn parse_df_kib(text: &str) -> (r: Option<(u64, u64)>)
    ensures
        r == df_kib(text@),
{
    let chars = to_chars(text);
    let ls = split_lines(chars.as_slice());
    let ghost lv = views(ls@);
    if ls.len() == 0 {
        return None;
    }
    let mut i: usize = 1;
    while i < ls.len()
        invariant
            1 <= i <= ls@.len(),
            lv == views(ls@),
            lv == lines(text@),
            df_kib(text@) == df_first(lv.skip(i as int)),
        decreases ls@.len() - i,
    {
        let toks = split_ws(ls[i].as_slice());
        proof {
            assert(lv.skip(i as int)[0] == ls@[i as int]@);
            assert(lv.skip(i as int).drop_first() == lv.skip(i + 1));
        }
        if toks.len() >= 4 {
            assert(views(toks@)[1] == toks@[1]@);
            assert(views(toks@)[2] == toks@[2]@);
            let total = parse_u64(toks[1].as_slice());
            let used = parse_u64(toks[2].as_slice());
            match (total, used) {
                (Some(t), Some(u)) => {
                    return Some((u, t));
                },
                _ => {},
            }
        }
        i = i + 1;
    }
    assert(lv.skip(i as int).len() == 0);
    None
}

/// The KiB value of the first `MemTotal:` line of `/proc/meminfo`.
pub fn parse_meminfo_kib(text: &str) -> (r: Option<u64>)
    ensures
        r == meminfo_kib(text@),
{
    let chars = to_chars(text);
    let ls = split_lines(chars.as_slice());
    let ghost lv = views(ls@);
    let prefix = to_chars("MemTotal:");
    let mut i: usize = 0;
    assert(lv.skip(0) == lv);
    while i < ls.len()
        invariant
            i <= ls@.len(),
            lv == views(ls@),
            lv == lines(text@),
            prefix@ == "MemTotal:"@,
            meminfo_kib(text@) == meminfo_first(lv.skip(i as int)),
        decreases ls@.len() - i,
    {
        proof {
            assert(lv.skip(i as int)[0] == ls@[i as int]@);
            assert(lv.skip(i as int).drop_first() == lv.skip(i + 1));
        }
        if starts_with_exec(ls[i].as_slice(), prefix.as_slice()) {
            let rest = copy_range(ls[i].as_slice(), prefix.len(), ls[i].len());
            assert(rest@ == ls@[i as int]@.skip(prefix@.len() as int));
            let toks = split_ws(rest.as_slice());
            if toks.len() == 0 {
                return None;
            }
            assert(views(toks@)[0] == toks@[0]@);
            match parse_u64(toks[0].as_slice()) {
                Some(kib) => {
                    return Some(kib);
                },
                None => {
                    return None;
                },
            }
        }
        i = i + 1;
    }
    assert(lv.skip(i as int).len() == 0);
    None
}

/// Parse `df -kP /` output into `(used_bytes, total_bytes)`. Columns are
/// `Filesystem 1024-blocks Used Available Capacity Mounted-on`; blocks are 1 KiB.
/// The figures must fit in bytes (the caller checks [`parse_df_kib`] first).
pub fn parse_df(text: &str) -> (r: Option<(u64, u64)>)
    requires
        match df_kib(text@) {
            Some((used, total)) => used * 1024 <= u64::MAX && total * 1024 <= u64::MAX,
            None => true,
        },
    ensures
        r == match df_kib(text@) {
            Some((used, total)) => Some(((used * 1024) as u64, (total * 1024) as u64)),
            None => None,
        },
{
    match parse_df_kib(text) {
        Some((used, total)) => Some((used * 1024, total * 1024)),
        None => None,
    }
}

/// Parse `/proc/meminfo` for the WSL VM's total RAM, in bytes. The `MemTotal:`
/// value is in kibibytes. It must fit in bytes (the caller checks
/// [`parse_meminfo_kib`] first).
pub fn parse_meminfo_total(text: &str) -> (r: Option<u64>)
    requires
        match meminfo_kib(text@) {
            Some(kib) => kib * 1024 <= u64::MAX,
            None => true,
        },
    ensures
        r == match meminfo_kib(text@) {
            Some(kib) => Some((kib * 1024) as u64),
            None => None,
        },
{
    match parse_meminfo_kib(text) {
        Some(kib) => Some(kib * 1024),
        None => None,
    }
}

} // verus!
