//! State for the configuration editor modal: a form over known keys and a raw
//! text editor, kept in sync through an [`IniDoc`].
use vstd::prelude::*;

use super::modal::TextField;
use crate::config::ini::{get_spec, parse_doc, render_doc, set_spec, IniLine};
use crate::config::{schema, schema_spec, ConfigKey, ConfigTarget, IniDoc};
use crate::text::{copy_range, from_chars, lines, push_all, push_str_chars, to_chars, trim, trim_chars};

verus! {

/// Which editing view is active.
#[derive(Debug, Clone, Copy, PartialEq, Eq, Structural)]
pub enum EditMode {
    /// Editing known keys as fields.
    Form,
    /// Editing the raw file text.
    Raw,
}

/// One known-key form field.
#[derive(Debug, PartialEq, Eq)]
pub struct ConfigField {
    /// The schema key.
    pub key: ConfigKey,
    /// The editable value.
    pub input: TextField,
}

impl Clone for ConfigField {
    fn clone(&self) -> (r: Self)
        ensures
            r == *self,
    {
        ConfigField { key: self.key, input: self.input.clone() }
    }
}

/// A minimal multi-line text editor (column positions are in characters).
#[derive(Debug, Clone, PartialEq, Eq)]
pub struct RawEditor {
    /// The text lines.
    pub lines: Vec<String>,
    /// Cursor row.
    pub row: usize,
    /// Cursor column (in characters).
    pub col: usize,
}

/// The abstract state of a [`RawEditor`].
pub struct RawView {
    pub lines: Seq<Seq<char>>,
    pub row: nat,
    pub col: nat,
}

/// The characters of each line.
pub open spec fn line_views(v: Seq<String>) -> Seq<Seq<char>> {
    v.map_values(|s: String| s@)
}

impl View for RawEditor {
    type V = RawView;

    open spec fn view(&self) -> RawView {
        RawView { lines: line_views(self.lines@), row: self.row as nat, col: self.col as nat }
    }
}

/// The cursor is on an existing line, at most one past its last character.
pub open spec fn raw_wf(r: RawView) -> bool {
    &&& r.lines.len() >= 1
    &&& r.row < r.lines.len()
    &&& r.col <= r.lines[r.row as int].len()
}

/// The editor `from_text` builds: the text's lines (at least one), cursor at
/// the start.
pub open spec fn raw_from_text(text: Seq<char>) -> RawView {
    RawView {
        lines: if lines(text).len() == 0 {
            seq![seq![]]
        } else {
            lines(text)
        },
        row: 0,
        col: 0,
    }
}

/// The lines joined with `\n`.
pub open spec fn joined(ls: Seq<Seq<char>>) -> Seq<char>
    decreases ls.len(),
{
    if ls.len() == 0 {
        seq![]
    } else if ls.len() == 1 {
        ls[0]
    } else {
        joined(ls.drop_last()) + seq!['\n'] + ls.last()
    }
}

/// The editor's full text: the lines joined with `\n`, newline-terminated.
pub open spec fn raw_text(r: RawView) -> Seq<char> {
    joined(r.lines) + seq!['\n']
}

/// The editor after typing `c` at the cursor.
pub open spec fn raw_insert(r: RawView, c: char) -> RawView {
    let l = r.lines[r.row as int];
    RawView {
        lines: r.lines.update(r.row as int, l.take(r.col as int) + seq![c] + l.skip(r.col as int)),
        row: r.row,
        col: r.col + 1,
    }
}

/// The editor after `Backspace`: delete the character before the cursor, or
/// join the line onto the previous one at column 0.
pub open spec fn raw_backspace(r: RawView) -> RawView {
    let l = r.lines[r.row as int];
    if r.col > 0 {
        RawView {
            lines: r.lines.update(
                r.row as int,
                l.take(r.col - 1) + l.skip(r.col as int),
            ),
            row: r.row,
            col: (r.col - 1) as nat,
        }
    } else if r.row > 0 {
        let prev = r.lines[r.row - 1];
        RawView {
            lines: r.lines.remove(r.row as int).update(r.row - 1, prev + l),
            row: (r.row - 1) as nat,
            col: prev.len(),
        }
    } else {
        r
    }
}

/// The editor after `Enter`: split the line at the cursor.
pub open spec fn raw_newline(r: RawView) -> RawView {
    let l = r.lines[r.row as int];
    RawView {
        lines: r.lines.update(r.row as int, l.take(r.col as int)).insert(
            r.row + 1int,
            l.skip(r.col as int),
        ),
        row: r.row + 1,
        col: 0,
    }
}

/// The editor after `Left`.
pub open spec fn raw_left(r: RawView) -> RawView {
    if r.col > 0 {
        RawView { col: (r.col - 1) as nat, ..r }
    } else if r.row > 0 {
        RawView { row: (r.row - 1) as nat, col: r.lines[r.row - 1].len(), ..r }
    } else {
        r
    }
}

/// The editor after `Right`.
pub open spec fn raw_right(r: RawView) -> RawView {
    if r.col < r.lines[r.row as int].len() {
        RawView { col: r.col + 1, ..r }
    } else if r.row + 1 < r.lines.len() {
        RawView { row: r.row + 1, col: 0, ..r }
    } else {
        r
    }
}

pub open spec fn min_nat(a: nat, b: nat) -> nat {
    if a <= b {
        a
    } else {
        b
    }
}

/// The editor after `Up` (column clamped to the new line).
pub open spec fn raw_up(r: RawView) -> RawView {
    if r.row > 0 {
        RawView {
            row: (r.row - 1) as nat,
            col: min_nat(r.col, r.lines[r.row - 1].len()),
            ..r
        }
    } else {
        r
    }
}

/// The editor after `Down` (column clamped to the new line).
pub open spec fn raw_down(r: RawView) -> RawView {
    if r.row + 1 < r.lines.len() {
        RawView { row: r.row + 1, col: min_nat(r.col, r.lines[r.row + 1int].len()), ..r }
    } else {
        r
    }
}

fn string_to_vec(s: &String) -> (r: Vec<char>)
    ensures
        r@ == s@,
{
    to_chars(s.as_str())
}

impl RawEditor {
    /// Build an editor from text (always has at least one line).
    pub fn from_text(text: &str) -> (r: Self)
        ensures
            r@ == raw_from_text(text@),
            raw_wf(r@),
    {
        let chars = to_chars(text);
        let ls = crate::text::split_lines(chars.as_slice());
        let mut out: Vec<String> = Vec::new();
        let mut i: usize = 0;
        while i < ls.len()
            invariant
                i <= ls@.len(),
                line_views(out@) == crate::text::views(ls@).take(i as int),
            decreases ls@.len() - i,
        {
            let ghost before = out@;
            let s = from_chars(ls[i].as_slice());
            out.push(s);
            proof {
                assert(out@ == before.push(s));
                assert(line_views(out@) =~= line_views(before).push(s@));
                assert(crate::text::views(ls@).take(i + 1) =~= crate::text::views(ls@).take(
                    i as int,
                ).push(ls@[i as int]@));
            }
            i = i + 1;
        }
        assert(crate::text::views(ls@).take(ls@.len() as int) == crate::text::views(ls@));
        if out.len() == 0 {
            out.push(String::new());
            assert(line_views(out@) =~= seq![seq![]]);
        }
        RawEditor { lines: out, row: 0, col: 0 }
    }

    /// The full text (newline-terminated).
    pub fn text(&self) -> (r: String)
        ensures
            r@ == raw_text(self@),
    {
        let ghost ls = line_views(self.lines@);
        let mut out: Vec<char> = Vec::new();
        let mut i: usize = 0;
        while i < self.lines.len()
            invariant
                i <= self.lines@.len(),
                ls == line_views(self.lines@),
                out@ == joined(ls.take(i as int)),
            decreases self.lines@.len() - i,
        {
            if i > 0 {
                out.push('\n');
            }
            push_str_chars(&mut out, self.lines[i].as_str());
            proof {
                let t = ls.take(i + 1);
                assert(t.drop_last() == ls.take(i as int));
                assert(t.last() == ls[i as int]);
                if i == 0 {
                    assert(ls.take(0) == Seq::<Seq<char>>::empty());
                }
            }
            i = i + 1;
        }
        assert(ls.take(self.lines@.len() as int) == ls);
        out.push('\n');
        from_chars(out.as_slice())
    }

    /// Insert a character at the cursor.
    pub fn insert(&mut self, c: char)
        requires
            raw_wf(old(self)@),
        ensures
            final(self)@ == raw_insert(old(self)@, c),
            raw_wf(final(self)@),
    {
        let ghost old_v = self@;
        assert(self.lines@.len() == old_v.lines.len());
        let l = string_to_vec(&self.lines[self.row]);
        let mut next = copy_range(l.as_slice(), 0, self.col);
        next.push(c);
        let new_col = next.len();
        let tail = copy_range(l.as_slice(), self.col, l.len());
        push_all(&mut next, tail.as_slice());
        assert(l@.subrange(0, self.col as int) == l@.take(self.col as int));
        assert(l@.subrange(self.col as int, l@.len() as int) == l@.skip(self.col as int));
        let ghost lines0 = self.lines@;
        let s = from_chars(next.as_slice());
        self.lines.set(self.row, s);
        self.col = new_col;
        assert(self.lines@ == lines0.update(self.row as int, s));
        assert(l@ == old_v.lines[old_v.row as int]);
        assert(s@ =~= l@.take(old_v.col as int) + seq![c] + l@.skip(old_v.col as int));
        assert(line_views(self.lines@) =~= line_views(lines0).update(self.row as int, s@));
        assert(self@.lines =~= raw_insert(old_v, c).lines);
    }

    /// Delete the character before the cursor (joining lines at column 0).
    pub fn backspace(&mut self)
        requires
            raw_wf(old(self)@),
        ensures
            final(self)@ == raw_backspace(old(self)@),
            raw_wf(final(self)@),
    {
        assert(self.lines@.len() == old(self)@.lines.len());
        let ghost old_v = self@;
        if self.col > 0 {
            let l = string_to_vec(&self.lines[self.row]);
            let mut next = copy_range(l.as_slice(), 0, self.col - 1);
            let tail = copy_range(l.as_slice(), self.col, l.len());
            push_all(&mut next, tail.as_slice());
            assert(l@.subrange(0, self.col - 1) == l@.take(self.col - 1));
            assert(l@.subrange(self.col as int, l@.len() as int) == l@.skip(self.col as int));
            self.lines.set(self.row, from_chars(next.as_slice()));
            self.col = self.col - 1;
            assert(self@.lines =~= raw_backspace(old_v).lines);
        } else if self.row > 0 {
            let current = self.lines.remove(self.row);
            self.row = self.row - 1;
            let prev = string_to_vec(&self.lines[self.row]);
            let mut joined_line = prev.clone();
            push_str_chars(&mut joined_line, current.as_str());
            self.col = prev.len();
            self.lines.set(self.row, from_chars(joined_line.as_slice()));
            assert(self@.lines =~= raw_backspace(old_v).lines);
        }
    }

    /// Split the current line at the cursor.
    pub fn newline(&mut self)
        requires
            raw_wf(old(self)@),
        ensures
            final(self)@ == raw_newline(old(self)@),
            raw_wf(final(self)@),
    {
        assert(self.lines@.len() == old(self)@.lines.len());
        let ghost old_v = self@;
        let n = self.lines.len();
        assert(self.row < n);
        let l = string_to_vec(&self.lines[self.row]);
        let head = copy_range(l.as_slice(), 0, self.col);
        let rest = copy_range(l.as_slice(), self.col, l.len());
        assert(l@.subrange(0, self.col as int) == l@.take(self.col as int));
        assert(l@.subrange(self.col as int, l@.len() as int) == l@.skip(self.col as int));
        self.lines.set(self.row, from_chars(head.as_slice()));
        self.lines.insert(self.row + 1, from_chars(rest.as_slice()));
        self.row = self.row + 1;
        self.col = 0;
        assert(self@.lines =~= raw_newline(old_v).lines);
    }

    /// Move the cursor left.
    pub fn left(&mut self)
        requires
            raw_wf(old(self)@),
        ensures
            final(self)@ == raw_left(old(self)@),
            raw_wf(final(self)@),
    {
        assert(self.lines@.len() == old(self)@.lines.len());
        if self.col > 0 {
            self.col = self.col - 1;
        } else if self.row > 0 {
            self.row = self.row - 1;
            self.col = char_count(&self.lines[self.row]);
        }
    }

    /// Move the cursor right.
    pub fn right(&mut self)
        requires
            raw_wf(old(self)@),
        ensures
            final(self)@ == raw_right(old(self)@),
            raw_wf(final(self)@),
    {
        assert(self.lines@.len() == old(self)@.lines.len());
        let n = self.lines.len();
        let len = char_count(&self.lines[self.row]);
        if self.col < len {
            self.col = self.col + 1;
        } else if self.row + 1 < n {
            self.row = self.row + 1;
            self.col = 0;
        }
    }

    /// Move the cursor up.
    pub fn up(&mut self)
        requires
            raw_wf(old(self)@),
        ensures
            final(self)@ == raw_up(old(self)@),
            raw_wf(final(self)@),
    {
        assert(self.lines@.len() == old(self)@.lines.len());
        if self.row > 0 {
            self.row = self.row - 1;
            let len = char_count(&self.lines[self.row]);
            if len < self.col {
                self.col = len;
            }
        }
    }

    /// Move the cursor down.
    pub fn down(&mut self)
        requires
            raw_wf(old(self)@),
        ensures
            final(self)@ == raw_down(old(self)@),
            raw_wf(final(self)@),
    {
        assert(self.lines@.len() == old(self)@.lines.len());
        let n = self.lines.len();
        if self.row + 1 < n {
            self.row = self.row + 1;
            let len = char_count(&self.lines[self.row]);
            if len < self.col {
                self.col = len;
            }
        }
    }
}

/// The number of characters in `s`.
fn char_count(s: &String) -> (r: usize)
    ensures
        r == s@.len(),
{
    string_to_vec(s).len()
}


// ---------------------------------------------------------------------------
// Editor state
// ---------------------------------------------------------------------------
/// The configuration editor state.
#[derive(Debug, Clone, PartialEq, Eq)]
pub struct ConfigEditState {
    /// Which file is being edited.
    pub target: ConfigTarget,
    /// The parsed document (source of truth for unknown keys/comments).
    pub doc: IniDoc,
    /// Known-key form fields.
    pub fields: Vec<ConfigField>,
    /// Focused field index (form mode).
    pub focus: usize,
    /// Active view.
    pub mode: EditMode,
    /// Raw text editor (raw mode).
    pub raw: RawEditor,
}

/// The abstract state of a [`ConfigEditState`].
pub struct ConfigEditView {
    pub target: ConfigTarget,
    pub doc: Seq<IniLine>,
    pub fields: Seq<(ConfigKey, Seq<char>)>,
    pub focus: nat,
    pub mode: EditMode,
    pub raw: RawView,
}

/// The key and current text of each field.
pub open spec fn field_views(fs: Seq<ConfigField>) -> Seq<(ConfigKey, Seq<char>)> {
    fs.map_values(|f: ConfigField| (f.key, f.input@))
}

impl View for ConfigEditState {
    type V = ConfigEditView;

    open spec fn view(&self) -> ConfigEditView {
        ConfigEditView {
            target: self.target,
            doc: self.doc@,
            fields: field_views(self.fields@),
            focus: self.focus as nat,
            mode: self.mode,
            raw: self.raw@,
        }
    }
}

/// The value a document holds for a schema key, or empty.
pub open spec fn value_or_empty(doc: Seq<IniLine>, k: ConfigKey) -> Seq<char> {
    match get_spec(doc, k.section@, k.key@) {
        Some(v) => v,
        None => seq![],
    }
}

/// Fields for `keys`, each filled from `doc`.
pub open spec fn fields_from(doc: Seq<IniLine>, keys: Seq<ConfigKey>) -> Seq<(ConfigKey, Seq<char>)> {
    keys.map_values(|k: ConfigKey| (k, value_or_empty(doc, k)))
}

/// `doc` with every field written into it in order (trimmed; a blank field
/// removes its key).
pub open spec fn apply_fields(doc: Seq<IniLine>, fs: Seq<(ConfigKey, Seq<char>)>) -> Seq<IniLine>
    decreases fs.len(),
{
    if fs.len() == 0 {
        doc
    } else {
        let f = fs.last();
        set_spec(apply_fields(doc, fs.drop_last()), f.0.section@, f.0.key@, trim(f.1))
    }
}

/// The editor opened on `content`: form mode over the target's schema.
pub open spec fn config_edit_new(target: ConfigTarget, content: Seq<char>) -> ConfigEditView {
    let doc = parse_doc(content);
    ConfigEditView {
        target,
        doc,
        fields: fields_from(doc, schema_spec(target)),
        focus: 0,
        mode: EditMode::Form,
        raw: raw_from_text(content),
    }
}

/// The editor after switching to raw mode (form edits flushed into the text).
pub open spec fn config_to_raw(s: ConfigEditView) -> ConfigEditView {
    let doc = apply_fields(s.doc, s.fields);
    ConfigEditView { doc, raw: raw_from_text(render_doc(doc)), mode: EditMode::Raw, ..s }
}

/// The editor after switching to form mode (raw text re-parsed into fields).
pub open spec fn config_to_form(s: ConfigEditView) -> ConfigEditView {
    let doc = parse_doc(raw_text(s.raw));
    ConfigEditView {
        doc,
        fields: fields_from(doc, s.fields.map_values(|f: (ConfigKey, Seq<char>)| f.0)),
        mode: EditMode::Form,
        ..s
    }
}

/// The content to save for the active view.
pub open spec fn config_rendered(s: ConfigEditView) -> Seq<char> {
    match s.mode {
        EditMode::Form => render_doc(apply_fields(s.doc, s.fields)),
        EditMode::Raw => raw_text(s.raw),
    }
}

/// The next index in a ring of `len`, from `i`.
pub open spec fn ring_next(i: nat, len: nat) -> nat
    recommends
        len > 0,
{
    if i % len + 1 == len {
        0
    } else {
        i % len + 1
    }
}

/// The previous index in a ring of `len`, from `i`.
pub open spec fn ring_prev(i: nat, len: nat) -> nat
    recommends
        len > 0,
{
    if i % len == 0 {
        (len - 1) as nat
    } else {
        (i % len - 1) as nat
    }
}

/// Executable [`ring_next`].
pub fn ring_next_exec(i: usize, len: usize) -> (r: usize)
    requires
        len > 0,
    ensures
        r == ring_next(i as nat, len as nat),
        r < len,
{
    let m = i % len;
    if m + 1 == len {
        0
    } else {
        m + 1
    }
}

/// Executable [`ring_prev`].
pub fn ring_prev_exec(i: usize, len: usize) -> (r: usize)
    requires
        len > 0,
    ensures
        r == ring_prev(i as nat, len as nat),
        r < len,
{
    let m = i % len;
    if m == 0 {
        len - 1
    } else {
        m - 1
    }
}

/// The editor state is usable: its raw editor's cursor is in range.
pub open spec fn config_wf(s: ConfigEditView) -> bool {
    raw_wf(s.raw)
}

fn value_of(doc: &IniDoc, k: ConfigKey) -> (r: TextField)
    ensures
        r@ == value_or_empty(doc@, k),
{
    match doc.get(k.section, k.key) {
        Some(v) => TextField::new(v),
        None => {
            proof {
                reveal_strlit("");
            }
            TextField::new("")
        },
    }
}

fn apply_fields_exec(doc: &mut IniDoc, fields: &Vec<ConfigField>)
    ensures
        final(doc)@ == apply_fields(old(doc)@, field_views(fields@)),
{
    let ghost d0 = doc@;
    let ghost fv = field_views(fields@);
    let mut i: usize = 0;
    while i < fields.len()
        invariant
            i <= fields@.len(),
            fv == field_views(fields@),
            doc@ == apply_fields(d0, fv.take(i as int)),
        decreases fields@.len() - i,
    {
        let f = &fields[i];
        let v = trim_chars(to_chars(f.input.value.as_str()).as_slice());
        let vs = from_chars(v.as_slice());
        doc.set(f.key.section, f.key.key, vs.as_str());
        proof {
            let t = fv.take(i + 1);
            assert(t.drop_last() == fv.take(i as int));
            assert(t.last() == fv[i as int]);
        }
        i = i + 1;
    }
    assert(fv.take(fields@.len() as int) == fv);
}

impl ConfigEditState {
    /// Build editor state from a target and the file's current content.
    pub fn new(target: ConfigTarget, content: &str) -> (r: Self)
        ensures
            r@ == config_edit_new(target, content@),
            config_wf(r@),
    {
        let doc = IniDoc::parse(content);
        let keys = schema(&target);
        let mut fields: Vec<ConfigField> = Vec::new();
        let mut i: usize = 0;
        while i < keys.len()
            invariant
                i <= keys@.len(),
                keys@ == schema_spec(target),
                doc@ == parse_doc(content@),
                field_views(fields@) == fields_from(doc@, keys@.take(i as int)),
            decreases keys@.len() - i,
        {
            let ghost before = fields@;
            let k = keys[i];
            let f = ConfigField { key: k, input: value_of(&doc, k) };
            fields.push(f);
            proof {
                assert(fields@ == before.push(f));
                assert(field_views(fields@) =~= field_views(before).push((f.key, f.input@)));
                assert(keys@.take(i + 1) =~= keys@.take(i as int).push(k));
                assert(fields_from(doc@, keys@.take(i + 1)) =~= fields_from(
                    doc@,
                    keys@.take(i as int),
                ).push((k, value_or_empty(doc@, k))));
            }
            i = i + 1;
        }
        assert(keys@.take(keys@.len() as int) == keys@);
        let raw = RawEditor::from_text(content);
        ConfigEditState { target, doc, fields, focus: 0, mode: EditMode::Form, raw }
    }

    /// The focused field, if any.
    pub fn current_field_mut(&mut self) -> (r: Option<&mut ConfigField>)
        ensures
            r.is_some() <==> old(self).focus < old(self).fields@.len(),
            match r {
                Some(f) => {
                    &&& *f == old(self).fields@[old(self).focus as int]
                    &&& final(self).fields@ == old(self).fields@.update(
                        old(self).focus as int,
                        *final(f),
                    )
                    &&& final(self).target == old(self).target
                    &&& final(self).doc@ == old(self).doc@
                    &&& final(self).focus == old(self).focus
                    &&& final(self).mode == old(self).mode
                    &&& final(self).raw == old(self).raw
                },
                None => *final(self) == *old(self),
            },
    {
        if self.focus < self.fields.len() {
            Some(&mut self.fields[self.focus])
        } else {
            None
        }
    }

    /// Switch to raw mode, flushing form edits into the raw text.
    pub fn to_raw(&mut self)
        ensures
            final(self)@ == config_to_raw(old(self)@),
            config_wf(final(self)@),
    {
        apply_fields_exec(&mut self.doc, &self.fields);
        let text = self.doc.render();
        self.raw = RawEditor::from_text(text.as_str());
        self.mode = EditMode::Raw;
    }

    /// Switch to form mode, re-parsing the raw text into fields.
    pub fn to_form(&mut self)
        requires
            config_wf(old(self)@),
        ensures
            final(self)@ == config_to_form(old(self)@),
            config_wf(final(self)@),
    {
        let ghost keys = field_views(self.fields@).map_values(|f: (ConfigKey, Seq<char>)| f.0);
        let text = self.raw.text();
        self.doc = IniDoc::parse(text.as_str());
        let n = self.fields.len();
        let mut out: Vec<ConfigField> = Vec::new();
        let mut i: usize = 0;
        while i < n
            invariant
                n == self.fields@.len(),
                i <= n,
                keys == field_views(self.fields@).map_values(|f: (ConfigKey, Seq<char>)| f.0),
                field_views(out@) == fields_from(self.doc@, keys.take(i as int)),
            decreases n - i,
        {
            let ghost before = out@;
            let k = self.fields[i].key;
            let f = ConfigField { key: k, input: value_of(&self.doc, k) };
            out.push(f);
            proof {
                assert(out@ == before.push(f));
                assert(field_views(out@) =~= field_views(before).push((f.key, f.input@)));
                assert(keys[i as int] == k);
                assert(keys.take(i + 1) =~= keys.take(i as int).push(k));
                assert(fields_from(self.doc@, keys.take(i + 1)) =~= fields_from(
                    self.doc@,
                    keys.take(i as int),
                ).push((k, value_or_empty(self.doc@, k))));
            }
            i = i + 1;
        }
        assert(keys.take(n as int) == keys);
        self.fields = out;
        self.mode = EditMode::Form;
    }

    /// The content to save, based on the active view (preserves unknown keys
    /// and comments via the underlying [`IniDoc`]).
    pub fn rendered(&self) -> (r: String)
        ensures
            r@ == config_rendered(self@),
    {
        match self.mode {
            EditMode::Form => {
                let mut doc = self.doc.clone();
                apply_fields_exec(&mut doc, &self.fields);
                doc.render()
            },
            EditMode::Raw => self.raw.text(),
        }
    }

    /// Move focus to the next field (wrapping).
    pub fn focus_next(&mut self)
        ensures
            final(self)@ == (ConfigEditView {
                focus: if old(self)@.fields.len() > 0 {
                    ring_next(old(self)@.focus, old(self)@.fields.len())
                } else {
                    old(self)@.focus
                },
                ..old(self)@
            }),
    {
        if self.fields.len() > 0 {
            self.focus = ring_next_exec(self.focus, self.fields.len());
        }
    }

    /// Move focus to the previous field (wrapping).
    pub fn focus_prev(&mut self)
        ensures
            final(self)@ == (ConfigEditView {
                focus: if old(self)@.fields.len() > 0 {
                    ring_prev(old(self)@.focus, old(self)@.fields.len())
                } else {
                    old(self)@.focus
                },
                ..old(self)@
            }),
    {
        if self.fields.len() > 0 {
            self.focus = ring_prev_exec(self.focus, self.fields.len());
        }
    }
}

} // verus!
