//! Managed export/import folder: path, archive-format and name helpers. The
//! application performs the filesystem work (listing, deleting, creating the
//! folders); everything here is pure.
use vstd::prelude::*;

use crate::text::{
    copy_range, ends_with, ends_with_exec, from_chars, join_path, join_path_exec, lower,
    lead_ws, lemma_lead_ws, lemma_trail_ws, lemma_trim_idempotent, push_all, push_str_chars,
    to_chars, to_lower, trim, trim_chars, trim_start,
};

verus! {

/// The export archive formats `wsl --export` can produce.
#[derive(Debug, Clone, Copy, PartialEq, Eq, Structural)]
pub enum ExportFormat {
    /// Uncompressed tar (the `wsl` default; pass no `--format`).
    Tar,
    /// gzip-compressed tar (`--format tar.gz`).
    TarGz,
    /// xz-compressed tar (`--format tar.xz`).
    TarXz,
    /// Virtual hard disk (`--format vhd`).
    Vhd,
}

/// The format a file name's extension selects (case-insensitive).
pub open spec fn format_of(name: Seq<char>) -> ExportFormat {
    let l = lower(name);
    if ends_with(l, ".tar.gz"@) || ends_with(l, ".tgz"@) {
        ExportFormat::TarGz
    } else if ends_with(l, ".tar.xz"@) || ends_with(l, ".txz"@) {
        ExportFormat::TarXz
    } else if ends_with(l, ".vhdx"@) || ends_with(l, ".vhd"@) {
        ExportFormat::Vhd
    } else {
        ExportFormat::Tar
    }
}

/// The `--format` argument for a format (`None` for plain tar).
pub open spec fn format_arg(f: ExportFormat) -> Option<&'static str> {
    match f {
        ExportFormat::Tar => None,
        ExportFormat::TarGz => Some("tar.gz"),
        ExportFormat::TarXz => Some("tar.xz"),
        ExportFormat::Vhd => Some("vhd"),
    }
}

fn ends_with_lit(l: &[char], ext: &str) -> (r: bool)
    ensures
        r == ends_with(l@, ext@),
{
    let e = to_chars(ext);
    ends_with_exec(l, e.as_slice())
}

impl ExportFormat {
    /// Pick the format from a filename's extension (defaults to `Tar`).
    pub fn from_filename(name: &str) -> (r: ExportFormat)
        ensures
            r == format_of(name@),
    {
        let n = to_chars(name);
        let l = to_lower(n.as_slice());
        let l = l.as_slice();
        if ends_with_lit(l, ".tar.gz") || ends_with_lit(l, ".tgz") {
            ExportFormat::TarGz
        } else if ends_with_lit(l, ".tar.xz") || ends_with_lit(l, ".txz") {
            ExportFormat::TarXz
        } else if ends_with_lit(l, ".vhdx") || ends_with_lit(l, ".vhd") {
            ExportFormat::Vhd
        } else {
            ExportFormat::Tar
        }
    }

    /// The `--format` value, or `None` for plain tar (the flag is omitted for
    /// compatibility with older `wsl`).
    pub fn wsl_format_arg(self) -> (r: Option<&'static str>)
        ensures
            r == format_arg(self),
    {
        match self {
            ExportFormat::Tar => None,
            ExportFormat::TarGz => Some("tar.gz"),
            ExportFormat::TarXz => Some("tar.xz"),
            ExportFormat::Vhd => Some("vhd"),
        }
    }
}

/// Whether a file name is a VHD archive (import needs `--vhd` for these).
pub open spec fn is_vhd_name(name: Seq<char>) -> bool {
    ends_with(lower(name), ".vhdx"@) || ends_with(lower(name), ".vhd"@)
}

/// Whether a filename is a VHD archive (import needs `--vhd` for these).
pub fn is_vhd_archive(name: &str) -> (r: bool)
    ensures
        r == is_vhd_name(name@),
{
    let n = to_chars(name);
    let l = to_lower(n.as_slice());
    ends_with_lit(l.as_slice(), ".vhdx") || ends_with_lit(l.as_slice(), ".vhd")
}

/// Recognised archive extensions, longest-first so `.tar.gz` wins over `.tar`.
pub open spec fn archive_exts() -> Seq<Seq<char>> {
    seq![".tar.gz"@, ".tar.xz"@, ".tgz"@, ".txz"@, ".vhdx"@, ".tar"@, ".vhd"@]
}

fn archive_ext_list() -> (r: Vec<&'static str>)
    ensures
        r@.map_values(|s: &'static str| s@) == archive_exts(),
{
    let r = vec![".tar.gz", ".tar.xz", ".tgz", ".txz", ".vhdx", ".tar", ".vhd"];
    assert(r@.map_values(|s: &'static str| s@) =~= archive_exts());
    r
}

/// The index of the first extension of `exts` that the lowercased name ends
/// with, or `exts.len()`.
pub open spec fn first_ext(l: Seq<char>, exts: Seq<Seq<char>>) -> nat
    decreases exts.len(),
{
    if exts.len() == 0 {
        0
    } else if ends_with(l, exts[0]) {
        0
    } else {
        1 + first_ext(l, exts.drop_first())
    }
}

proof fn lemma_first_ext(l: Seq<char>, exts: Seq<Seq<char>>)
    ensures
        first_ext(l, exts) <= exts.len(),
        first_ext(l, exts) < exts.len() ==> ends_with(l, exts[first_ext(l, exts) as int]),
        forall|j: int| 0 <= j < first_ext(l, exts) ==> !ends_with(l, #[trigger] exts[j]),
    decreases exts.len(),
{
    if exts.len() > 0 && !ends_with(l, exts[0]) {
        lemma_first_ext(l, exts.drop_first());
        assert forall|j: int| 0 <= j < first_ext(l, exts) implies !ends_with(
            l,
            #[trigger] exts[j],
        ) by {
            if j > 0 {
                assert(exts[j] == exts.drop_first()[j - 1]);
            }
        }
    }
}

proof fn lemma_first_ext_at(l: Seq<char>, exts: Seq<Seq<char>>, i: int)
    requires
        0 <= i <= exts.len(),
        forall|j: int| 0 <= j < i ==> !ends_with(l, #[trigger] exts[j]),
        i < exts.len() ==> ends_with(l, exts[i]),
    ensures
        first_ext(l, exts) == i,
    decreases exts.len(),
{
    if i > 0 {
        assert forall|j: int| 0 <= j < i - 1 implies !ends_with(
            l,
            #[trigger] exts.drop_first()[j],
        ) by {
            assert(exts.drop_first()[j] == exts[j + 1]);
        }
        lemma_first_ext_at(l, exts.drop_first(), i - 1);
    }
}

/// Index of the first archive extension the lowercased `l` ends with.
fn first_ext_exec(l: &[char]) -> (r: usize)
    ensures
        r == first_ext(l@, archive_exts()),
        r <= 7,
{
    let exts = archive_ext_list();
    let ghost es = archive_exts();
    assert(es.len() == 7);
    assert(exts@.map_values(|s: &'static str| s@).len() == exts@.len());
    let mut i: usize = 0;
    while i < exts.len()
        invariant
            i <= exts@.len(),
            exts@.len() == 7,
            es == archive_exts(),
            exts@.map_values(|s: &'static str| s@) == es,
            forall|j: int| 0 <= j < i ==> !ends_with(l@, #[trigger] es[j]),
        decreases exts@.len() - i,
    {
        assert(es[i as int] == exts@[i as int]@);
        if ends_with_lit(l, exts[i]) {
            proof {
                lemma_first_ext_at(l@, es, i as int);
            }
            return i;
        }
        i = i + 1;
    }
    proof {
        lemma_first_ext_at(l@, es, 7);
    }
    7
}

/// Whether a file name has a recognised archive extension.
pub open spec fn is_archive_name(name: Seq<char>) -> bool {
    exists|i: int| 0 <= i < archive_exts().len() && ends_with(lower(name), #[trigger] archive_exts()[i])
}

/// Whether a filename has a recognised archive extension.
pub fn is_archive(name: &str) -> (r: bool)
    ensures
        r == is_archive_name(name@),
{
    let n = to_chars(name);
    let l = to_lower(n.as_slice());
    let k = first_ext_exec(l.as_slice());
    proof {
        lemma_first_ext(l@, archive_exts());
    }
    k < 7
}

/// The `exports\` subfolder of the managed root.
pub fn exports_dir(root: &str) -> (r: String)
    ensures
        r@ == join_path(root@, "exports"@),
{
    join_path_exec(root, "exports")
}

/// Whether a character is illegal in a Windows file name (or a control
/// character), so that `sanitize_name` replaces it.
pub open spec fn is_illegal_name_char(c: char) -> bool {
    ||| c == '<' || c == '>' || c == ':' || c == '"' || c == '/' || c == '\\' || c == '|' || c == '?'
        || c == '*'
    ||| (c as u32) <= 0x1f
    ||| (0x7f <= (c as u32) && (c as u32) <= 0x9f)
}

pub open spec fn sanitize_char(c: char) -> char {
    if is_illegal_name_char(c) {
        '_'
    } else {
        c
    }
}

/// `name` with illegal characters replaced by `_`, then trimmed.
pub open spec fn sanitized(name: Seq<char>) -> Seq<char> {
    trim(name.map_values(|c: char| sanitize_char(c)))
}

/// Replace characters illegal in Windows file names with `_`.
pub fn sanitize_name(name: &str) -> (r: String)
    ensures
        r@ == sanitized(name@),
{
    let n = to_chars(name);
    let mut out: Vec<char> = Vec::new();
    let mut i: usize = 0;
    while i < n.len()
        invariant
            i <= n@.len(),
            out@ == n@.take(i as int).map_values(|c: char| sanitize_char(c)),
        decreases n@.len() - i,
    {
        let c = n[i];
        let code = c as u32;
        let bad = c == '<' || c == '>' || c == ':' || c == '"' || c == '/' || c == '\\' || c == '|'
            || c == '?' || c == '*' || code <= 0x1f || (0x7f <= code && code <= 0x9f);
        out.push(
            if bad {
                '_'
            } else {
                c
            },
        );
        i = i + 1;
        assert(n@.take(i as int).map_values(|c: char| sanitize_char(c)) =~= n@.take(
            (i - 1) as int,
        ).map_values(|c: char| sanitize_char(c)).push(sanitize_char(n@[i - 1])));
    }
    assert(n@.take(n@.len() as int) == n@);
    let t = trim_chars(out.as_slice());
    from_chars(t.as_slice())
}

/// The `installed\<name>\` folder for an imported distro.
pub fn installed_dir(root: &str, name: &str) -> (r: String)
    ensures
        r@ == join_path(join_path(root@, "installed"@), sanitized(name@)),
{
    let base = join_path_exec(root, "installed");
    let clean = sanitize_name(name);
    join_path_exec(base.as_str(), clean.as_str())
}

/// The default export filename: `<distro>-<local_ts>.tar`. `local_ts` is the
/// caller-supplied local timestamp (`YYYYMMDD-HHMMSS`).
pub fn export_filename(distro: &str, local_ts: &str) -> (r: String)
    ensures
        r@ == sanitized(distro@) + "-"@ + local_ts@ + ".tar"@,
{
    let clean = sanitize_name(distro);
    let mut out = to_chars(clean.as_str());
    push_str_chars(&mut out, "-");
    push_str_chars(&mut out, local_ts);
    push_str_chars(&mut out, ".tar");
    from_chars(out.as_slice())
}

/// A distro-name default derived from an archive file name: the name with its
/// first matching archive extension (in [`archive_exts`] order) removed.
pub open spec fn derived_name(name: Seq<char>) -> Seq<char> {
    let k = first_ext(lower(name), archive_exts());
    if k < archive_exts().len() {
        name.take(name.len() - archive_exts()[k as int].len())
    } else {
        name
    }
}

/// A distro-name default derived from an archive filename (extension stripped).
pub fn derive_distro_name(archive_filename: &str) -> (r: String)
    ensures
        r@ == derived_name(archive_filename@),
{
    let n = to_chars(archive_filename);
    let l = to_lower(n.as_slice());
    let k = first_ext_exec(l.as_slice());
    proof {
        lemma_first_ext(l@, archive_exts());
    }
    if k < 7 {
        let exts = archive_ext_list();
        let e = to_chars(exts[k]);
        assert(archive_exts()[k as int] == exts@[k as int]@);
        assert(l@.len() == n@.len());
        from_chars(copy_range(n.as_slice(), 0, n.len() - e.len()).as_slice())
    } else {
        from_chars(n.as_slice())
    }
}

/// An export archive on disk.
#[derive(Debug, PartialEq, Eq)]
pub struct Archive {
    /// File name (e.g. `Ubuntu-20260607-153012.tar.gz`).
    pub name: String,
    /// Absolute path (Windows path string).
    pub path: String,
    /// Size in bytes.
    pub size: u64,
}

impl Clone for Archive {
    fn clone(&self) -> (r: Self)
        ensures
            r == *self,
    {
        Archive { name: self.name.clone(), path: self.path.clone(), size: self.size }
    }
}

// ---------------------------------------------------------------------------
// Listing the managed exports
// ---------------------------------------------------------------------------
/// A directory entry found in the managed `exports\` folder.
#[derive(Debug)]
pub struct ExportCandidate {
    /// File name.
    pub name: String,
    /// Full path.
    pub path: String,
    /// Size in bytes.
    pub size: u64,
    /// Whether the entry is a regular file.
    pub is_file: bool,
    /// Modification time (a monotone count since a fixed epoch), if known.
    pub modified: Option<u64>,
}

/// Whether modification time `a` is at least as recent as `b` (an unknown
/// time counts as the oldest).
pub open spec fn newer_or_same(a: Option<u64>, b: Option<u64>) -> bool {
    match (a, b) {
        (_, None) => true,
        (None, Some(_)) => false,
        (Some(x), Some(y)) => x >= y,
    }
}

/// An archive paired with its modification time.
pub type Dated = (Option<u64>, Archive);

/// `x` placed into the newest-first sequence `s`: after every entry at least as
/// recent (so equal times keep their order).
pub open spec fn insert_newest_first(s: Seq<Dated>, x: Dated) -> Seq<Dated>
    decreases s.len(),
{
    if s.len() == 0 {
        seq![x]
    } else if newer_or_same(s.last().0, x.0) {
        s.push(x)
    } else {
        insert_newest_first(s.drop_last(), x).push(s.last())
    }
}

/// `s` stably sorted newest first.
pub open spec fn sort_newest_first(s: Seq<Dated>) -> Seq<Dated>
    decreases s.len(),
{
    if s.len() == 0 {
        seq![]
    } else {
        insert_newest_first(sort_newest_first(s.drop_last()), s.last())
    }
}

/// The recognised archives among the entries, with their times, in listing
/// order.
pub open spec fn archive_entries(c: Seq<ExportCandidate>) -> Seq<Dated>
    decreases c.len(),
{
    if c.len() == 0 {
        seq![]
    } else {
        let rest = archive_entries(c.drop_last());
        let e = c.last();
        if e.is_file && is_archive_name(e.name@) {
            rest.push((e.modified, Archive { name: e.name, path: e.path, size: e.size }))
        } else {
            rest
        }
    }
}

/// The archives of a listing, newest first.
pub open spec fn archives_spec(c: Seq<ExportCandidate>) -> Seq<Archive> {
    sort_newest_first(archive_entries(c)).map_values(|d: Dated| d.1)
}

/// Where `x` goes in `s`: just after the last entry at least as recent, when
/// all entries after that are older.
proof fn lemma_insert_at(s: Seq<Dated>, x: Dated, p: int)
    requires
        0 <= p <= s.len(),
        p == 0 || newer_or_same(s[p - 1].0, x.0),
        forall|j: int| p <= j < s.len() ==> !newer_or_same(#[trigger] s[j].0, x.0),
    ensures
        insert_newest_first(s, x) == s.take(p) + seq![x] + s.skip(p),
    decreases s.len(),
{
    if s.len() == 0 {
        assert(s.take(p) + seq![x] + s.skip(p) =~= seq![x]);
    } else if p == s.len() {
        assert(s.take(p) + seq![x] + s.skip(p) =~= s.push(x));
    } else {
        let t = s.drop_last();
        assert(!newer_or_same(s.last().0, x.0));
        lemma_insert_at(t, x, p);
        assert(t.take(p) + seq![x] + t.skip(p) + seq![s.last()] =~= s.take(p) + seq![x] + s.skip(
            p,
        ));
    }
}

fn newer_or_same_exec(a: Option<u64>, b: Option<u64>) -> (r: bool)
    ensures
        r == newer_or_same(a, b),
{
    match (a, b) {
        (_, None) => true,
        (None, Some(_)) => false,
        (Some(x), Some(y)) => x >= y,
    }
}

/// The recognised archives (regular files with an archive extension) of a
/// listing of the managed `exports\` folder, newest first (entries with
/// equal or unknown times keep their listing order, unknown times last).
pub fn archives_newest_first(found: Vec<ExportCandidate>) -> (r: Vec<Archive>)
    ensures
        r@ == archives_spec(found@),
{
    let ghost entries = archive_entries(found@);
    let mut sorted: Vec<Dated> = Vec::new();
    let mut i: usize = 0;
    let mut found = found;
    let ghost all = found@;
    while i < found.len()
        invariant
            found@ == all,
            entries == archive_entries(all),
            i <= all.len(),
            sorted@ == sort_newest_first(archive_entries(all.take(i as int))),
        decreases all.len() - i,
    {
        let e = &found[i];
        proof {
            let t = all.take(i + 1);
            assert(t.drop_last() == all.take(i as int));
            assert(t.last() == all[i as int]);
        }
        if e.is_file && is_archive(e.name.as_str()) {
            let x: Dated = (
                e.modified,
                Archive { name: e.name.clone(), path: e.path.clone(), size: e.size },
            );
            let mut p = sorted.len();
            while p > 0 && !newer_or_same_exec(sorted[p - 1].0, x.0)
                invariant
                    p <= sorted@.len(),
                    forall|j: int| p <= j < sorted@.len() ==> !newer_or_same(#[trigger] sorted@[j].0, x.0),
                decreases p,
            {
                p = p - 1;
            }
            proof {
                lemma_insert_at(sorted@, x, p as int);
            }
            let ghost before = sorted@;
            sorted.insert(p, x);
            assert(sorted@ =~= before.take(p as int) + seq![x] + before.skip(p as int));
            proof {
                let prev = archive_entries(all.take(i as int));
                assert(archive_entries(all.take(i + 1)) == prev.push(x));
                assert(prev.push(x).drop_last() == prev);
                assert(sort_newest_first(prev.push(x)) == insert_newest_first(
                    sort_newest_first(prev),
                    x,
                ));
            }
        }
        i = i + 1;
    }
    assert(all.take(all.len() as int) == all);
    let mut out: Vec<Archive> = Vec::new();
    let mut k: usize = 0;
    let n = sorted.len();
    let ghost sv = sorted@;
    while k < n
        invariant
            n == sv.len(),
            sorted@ == sv,
            k <= n,
            out@ == sv.take(k as int).map_values(|d: Dated| d.1),
        decreases n - k,
    {
        out.push(sorted[k].1.clone());
        k = k + 1;
        assert(sv.take(k as int).map_values(|d: Dated| d.1) =~= sv.take((k - 1) as int).map_values(
            |d: Dated| d.1,
        ).push(sv[k - 1].1));
    }
    assert(sv.take(n as int) == sv);
    out
}

/// Whether `s` is ordered newest first.
pub open spec fn is_newest_first(s: Seq<Dated>) -> bool {
    forall|i: int, j: int| 0 <= i < j < s.len() ==> newer_or_same(#[trigger] s[i].0, #[trigger] s[j].0)
}

proof fn lemma_insert_keeps_order(s: Seq<Dated>, x: Dated)
    requires
        is_newest_first(s),
    ensures
        is_newest_first(insert_newest_first(s, x)),
        insert_newest_first(s, x).len() == s.len() + 1,
    decreases s.len(),
{
    if s.len() > 0 && !newer_or_same(s.last().0, x.0) {
        let t = s.drop_last();
        assert(is_newest_first(t));
        lemma_insert_keeps_order(t, x);
        lemma_insert_members(t, x);
    }
}

proof fn lemma_insert_members(s: Seq<Dated>, x: Dated)
    ensures
        forall|k: int|
            0 <= k < insert_newest_first(s, x).len() ==> #[trigger] insert_newest_first(s, x)[k]
                == x || s.contains(insert_newest_first(s, x)[k]),
        insert_newest_first(s, x).len() == s.len() + 1,
    decreases s.len(),
{
    if s.len() > 0 && !newer_or_same(s.last().0, x.0) {
        let t = s.drop_last();
        lemma_insert_members(t, x);
        let r = insert_newest_first(s, x);
        assert forall|k: int| 0 <= k < r.len() implies #[trigger] r[k] == x || s.contains(r[k]) by {
            if k == r.len() - 1 {
                assert(r[k] == s.last());
                assert(s[s.len() - 1] == s.last());
            } else {
                assert(r[k] == insert_newest_first(t, x)[k]);
                if r[k] != x {
                    let j = choose|j: int| 0 <= j < t.len() && t[j] == r[k];
                    assert(s[j] == t[j]);
                }
            }
        }
    } else if s.len() > 0 {
        let r = insert_newest_first(s, x);
        assert forall|k: int| 0 <= k < r.len() implies #[trigger] r[k] == x || s.contains(r[k]) by {
            if k < s.len() {
                assert(r[k] == s[k]);
            }
        }
    }
}

proof fn lemma_sort_is_ordered(s: Seq<Dated>)
    ensures
        is_newest_first(sort_newest_first(s)),
        sort_newest_first(s).len() == s.len(),
    decreases s.len(),
{
    if s.len() > 0 {
        lemma_sort_is_ordered(s.drop_last());
        lemma_insert_keeps_order(sort_newest_first(s.drop_last()), s.last());
    }
}

/// The listing comes out newest first, one entry per recognised archive.
pub proof fn law_archives_newest_first(c: Seq<ExportCandidate>)
    ensures
        is_newest_first(sort_newest_first(archive_entries(c))),
        archives_spec(c).len() == archive_entries(c).len(),
{
    lemma_sort_is_ordered(archive_entries(c));
}

/// A sanitized name holds no character that is illegal in a Windows file
/// name.
pub proof fn law_sanitized_is_legal(name: Seq<char>)
    ensures
        forall|i: int| 0 <= i < sanitized(name).len() ==> !is_illegal_name_char(
            #[trigger] sanitized(name)[i],
        ),
{
    let m = name.map_values(|c: char| sanitize_char(c));
    let u = trim_start(m);
    lemma_lead_ws(m);
    lemma_trail_ws(u);
    assert forall|i: int| 0 <= i < sanitized(name).len() implies !is_illegal_name_char(
        #[trigger] sanitized(name)[i],
    ) by {
        let j = lead_ws(m) + i;
        assert(sanitized(name)[i] == u[i]);
        assert(u[i] == m[j]);
        assert(m[j] == sanitize_char(name[j]));
    }
}

/// Sanitizing a sanitized name changes nothing.
pub proof fn law_sanitize_idempotent(name: Seq<char>)
    ensures
        sanitized(sanitized(name)) == sanitized(name),
{
    let t = sanitized(name);
    law_sanitized_is_legal(name);
    assert(t.map_values(|c: char| sanitize_char(c)) =~= t);
    lemma_trim_idempotent(name.map_values(|c: char| sanitize_char(c)));
}

/// One entry of the managed `exports\` folder as a listing candidate: its
/// path is the folder's path joined with its name.
pub fn export_candidate(
    root: &str,
    name: String,
    size: u64,
    is_file: bool,
    modified: Option<u64>,
) -> (r: ExportCandidate)
    ensures
        r.name == name,
        r.path@ == join_path(join_path(root@, "exports"@), name@),
        r.size == size,
        r.is_file == is_file,
        r.modified == modified,
{
    let dir = exports_dir(root);
    let path = join_path_exec(dir.as_str(), name.as_str());
    ExportCandidate { name, path, size, is_file, modified }
}

/// The archives of the managed `exports\` folder, newest first, from its
/// listing: a missing folder (`None`) lists nothing.
pub fn exports_listing(found: Option<Vec<ExportCandidate>>) -> (r: Vec<Archive>)
    ensures
        r@ == match found {
            Some(c) => archives_spec(c@),
            None => Seq::<Archive>::empty(),
        },
{
    match found {
        Some(c) => archives_newest_first(c),
        None => Vec::new(),
    }
}

} // verus!
