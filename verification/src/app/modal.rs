//! Modal dialog state overlaid on the main list.
use vstd::prelude::*;

use super::config_edit::{ConfigEditState, ConfigEditView, ring_next, ring_next_exec, ring_prev, ring_prev_exec};
use super::message::{cmd_views, Command, CommandView};
use crate::i18n::Key;
use crate::manage::Archive;
use crate::text::{contains_exec, contains_seq, lower, to_chars, to_lower, trim, trim_bounds};
use crate::wsl::OnlineDistro;

verus! {

/// An overlay dialog on top of the main list.
#[derive(Debug, Clone, PartialEq, Eq)]
pub enum Modal {
    /// Confirm a (possibly destructive) operation.
    Confirm(Confirm),
    /// Show an error; dismissed by any key.
    Error {
        /// The error text to display.
        message: String,
    },
    /// A text-entry form (export/import).
    Form(FormState),
    /// An indeterminate progress dialog for a long-running operation.
    Progress(ProgressState),
    /// A filterable picker of installable distributions.
    InstallPick(InstallPickState),
    /// A picker over the archives in the managed `exports\` folder.
    ImportPick(ImportPickState),
    /// The configuration editor (`.wslconfig` / `wsl.conf`).
    ConfigEdit(ConfigEditState),
    /// The keybinding help overlay.
    Help,
    /// The quit confirmation dialog.
    Quit,
}

/// A confirmation dialog. Destructive operations may require typing the distro
/// name to proceed. On confirmation, [`Confirm::on_confirm`] commands are run.
#[derive(Debug, Clone, PartialEq, Eq)]
pub struct Confirm {
    /// The prompt shown to the user.
    pub prompt: String,
    /// When set, the user must type the expected name to proceed.
    pub require_typed: Option<TypedConfirm>,
    /// Commands to dispatch when confirmed.
    pub on_confirm: Vec<Command>,
    /// If set, a progress dialog with this title opens on confirmation.
    pub progress_title: Option<String>,
    /// If set, this status message is shown on confirmation.
    pub status: Option<String>,
}

/// State for a "type the name to confirm" guard.
#[derive(Debug, Clone, PartialEq, Eq)]
pub struct TypedConfirm {
    /// The exact text that must be typed (the distro name).
    pub expected: String,
    /// What the user has typed so far.
    pub input: String,
}

impl TypedConfirm {
    /// True when the typed input matches the expected name.
    pub fn matches(&self) -> (r: bool)
        ensures
            r == (self.input@ == self.expected@),
    {
        self.input == self.expected
    }
}

/// A single-line text input (cursor fixed at the end).
#[derive(Debug, Default, PartialEq, Eq)]
pub struct TextField {
    /// The current text value.
    pub value: String,
}

impl Clone for TextField {
    fn clone(&self) -> (r: Self)
        ensures
            r == *self,
    {
        TextField { value: self.value.clone() }
    }
}

impl View for TextField {
    type V = Seq<char>;

    open spec fn view(&self) -> Seq<char> {
        self.value@
    }
}

/// `s` without its last character (unchanged when empty).
pub open spec fn pop_last(s: Seq<char>) -> Seq<char> {
    if s.len() > 0 {
        s.drop_last()
    } else {
        s
    }
}

impl TextField {
    /// A field pre-filled with `initial`.
    pub fn new(initial: &str) -> (r: Self)
        ensures
            r@ == initial@,
    {
        TextField { value: initial.to_owned() }
    }

    /// Append a character.
    pub fn insert(&mut self, c: char)
        ensures
            final(self)@ == old(self)@.push(c),
    {
        self.value.push(c);
    }

    /// Remove the last character.
    pub fn backspace(&mut self)
        ensures
            final(self)@ == pop_last(old(self)@),
    {
        self.value.pop();
    }
}

/// Which form is being shown.
#[derive(Debug, Clone, PartialEq, Eq)]
pub enum FormKind {
    /// Export the named distro (one field: the archive file name).
    Export {
        /// The distro being exported.
        distro: String,
    },
    /// Import a picked archive (one field: the new distro name).
    ImportName {
        /// The source archive path.
        tar: String,
    },
    /// Import from a typed path (fields: the archive path, the new name).
    ImportCustom,
}

/// State for a multi-field text form.
#[derive(Debug, Clone, PartialEq, Eq)]
pub struct FormState {
    /// Which form this is.
    pub kind: FormKind,
    /// Field labels (parallel to [`FormState::fields`]).
    pub labels: Vec<Key>,
    /// The editable fields.
    pub fields: Vec<TextField>,
    /// Index of the focused field.
    pub focus: usize,
}

/// State for an indeterminate progress dialog.
#[derive(Debug, Clone, PartialEq, Eq)]
pub struct ProgressState {
    /// The operation description (e.g. "Exporting 'Debian'").
    pub title: String,
    /// Animation frame counter.
    pub frame: usize,
}

/// State for the install picker (filterable list of installable distros).
#[derive(Debug, Clone, PartialEq, Eq)]
pub struct InstallPickState {
    /// All available distributions.
    pub items: Vec<OnlineDistro>,
    /// The current filter text.
    pub filter: String,
    /// Selected index into the filtered list.
    pub selected: usize,
}

/// State for the import picker over the managed archives.
#[derive(Debug, Clone, PartialEq, Eq)]
pub struct ImportPickState {
    /// The archives, newest first.
    pub entries: Vec<Archive>,
    /// Selected index.
    pub selected: usize,
}

// ---------------------------------------------------------------------------
// Views
// ---------------------------------------------------------------------------
/// The characters of an optional string.
pub open spec fn opt_view(o: Option<String>) -> Option<Seq<char>> {
    match o {
        Some(s) => Some(s@),
        None => None,
    }
}

pub struct TypedView {
    pub expected: Seq<char>,
    pub input: Seq<char>,
}

pub struct ConfirmView {
    pub prompt: Seq<char>,
    pub require_typed: Option<TypedView>,
    pub on_confirm: Seq<CommandView>,
    pub progress_title: Option<Seq<char>>,
    pub status: Option<Seq<char>>,
}

impl View for Confirm {
    type V = ConfirmView;

    open spec fn view(&self) -> ConfirmView {
        ConfirmView {
            prompt: self.prompt@,
            require_typed: match self.require_typed {
                Some(t) => Some(TypedView { expected: t.expected@, input: t.input@ }),
                None => None,
            },
            on_confirm: cmd_views(self.on_confirm@),
            progress_title: opt_view(self.progress_title),
            status: opt_view(self.status),
        }
    }
}

pub enum FormKindView {
    Export { distro: Seq<char> },
    ImportName { tar: Seq<char> },
    ImportCustom,
}

pub struct FormView {
    pub kind: FormKindView,
    pub labels: Seq<Key>,
    pub fields: Seq<Seq<char>>,
    pub focus: nat,
}

/// The text of each field.
pub open spec fn text_views(v: Seq<TextField>) -> Seq<Seq<char>> {
    v.map_values(|f: TextField| f@)
}

impl View for FormState {
    type V = FormView;

    open spec fn view(&self) -> FormView {
        FormView {
            kind: match self.kind {
                FormKind::Export { distro } => FormKindView::Export { distro: distro@ },
                FormKind::ImportName { tar } => FormKindView::ImportName { tar: tar@ },
                FormKind::ImportCustom => FormKindView::ImportCustom,
            },
            labels: self.labels@,
            fields: text_views(self.fields@),
            focus: self.focus as nat,
        }
    }
}

pub struct ProgressView {
    pub title: Seq<char>,
    pub frame: usize,
}

impl View for ProgressState {
    type V = ProgressView;

    open spec fn view(&self) -> ProgressView {
        ProgressView { title: self.title@, frame: self.frame }
    }
}

pub struct InstallPickView {
    pub items: Seq<OnlineDistro>,
    pub filter: Seq<char>,
    pub selected: nat,
}

impl View for InstallPickState {
    type V = InstallPickView;

    open spec fn view(&self) -> InstallPickView {
        InstallPickView { items: self.items@, filter: self.filter@, selected: self.selected as nat }
    }
}

pub struct ImportPickView {
    pub entries: Seq<Archive>,
    pub selected: nat,
}

impl View for ImportPickState {
    type V = ImportPickView;

    open spec fn view(&self) -> ImportPickView {
        ImportPickView { entries: self.entries@, selected: self.selected as nat }
    }
}

pub enum ModalView {
    Confirm(ConfirmView),
    Error(Seq<char>),
    Form(FormView),
    Progress(ProgressView),
    InstallPick(InstallPickView),
    ImportPick(ImportPickView),
    ConfigEdit(ConfigEditView),
    Help,
    Quit,
}

impl View for Modal {
    type V = ModalView;

    open spec fn view(&self) -> ModalView {
        match self {
            Modal::Confirm(c) => ModalView::Confirm(c@),
            Modal::Error { message } => ModalView::Error(message@),
            Modal::Form(f) => ModalView::Form(f@),
            Modal::Progress(p) => ModalView::Progress(p@),
            Modal::InstallPick(p) => ModalView::InstallPick(p@),
            Modal::ImportPick(p) => ModalView::ImportPick(p@),
            Modal::ConfigEdit(s) => ModalView::ConfigEdit(s@),
            Modal::Help => ModalView::Help,
            Modal::Quit => ModalView::Quit,
        }
    }
}

// ---------------------------------------------------------------------------
// Forms
// ---------------------------------------------------------------------------
/// A form is usable: each kind has its fields, and the focus is on one.
pub open spec fn form_wf(f: FormView) -> bool {
    &&& f.fields.len() >= match f.kind {
        FormKindView::ImportCustom => 2nat,
        _ => 1nat,
    }
    &&& f.focus < f.fields.len()
}

/// The export form: one field, the archive file name.
pub open spec fn export_form(distro: Seq<char>, filename: Seq<char>) -> FormView {
    FormView {
        kind: FormKindView::Export { distro },
        labels: seq![Key::LabelExportPath],
        fields: seq![filename],
        focus: 0,
    }
}

/// The import-name form for a picked archive: one field, the new name.
pub open spec fn import_name_form(tar: Seq<char>, default_name: Seq<char>) -> FormView {
    FormView {
        kind: FormKindView::ImportName { tar },
        labels: seq![Key::LabelImportNameOnly],
        fields: seq![default_name],
        focus: 0,
    }
}

/// The custom import form: the archive path, then the new name (both empty).
pub open spec fn import_custom_form() -> FormView {
    FormView {
        kind: FormKindView::ImportCustom,
        labels: seq![Key::LabelImportCustomArchive, Key::LabelImportNameOnly],
        fields: seq![seq![], seq![]],
        focus: 0,
    }
}

impl FormState {
    /// An export form with a pre-filled archive file name.
    pub fn export(distro: String, filename: String) -> (r: Self)
        ensures
            r@ == export_form(distro@, filename@),
            form_wf(r@),
    {
        let r = FormState {
            kind: FormKind::Export { distro },
            labels: vec![Key::LabelExportPath],
            fields: vec![TextField { value: filename }],
            focus: 0,
        };
        assert(r@.labels =~= seq![Key::LabelExportPath]);
        assert(r@.fields =~= seq![r.fields@[0]@]);
        r
    }

    /// The name form for importing the picked archive `tar`, pre-filled with
    /// `default_name`.
    pub fn import_name(tar: String, default_name: String) -> (r: Self)
        ensures
            r@ == import_name_form(tar@, default_name@),
            form_wf(r@),
    {
        let r = FormState {
            kind: FormKind::ImportName { tar },
            labels: vec![Key::LabelImportNameOnly],
            fields: vec![TextField { value: default_name }],
            focus: 0,
        };
        assert(r@.labels =~= seq![Key::LabelImportNameOnly]);
        assert(r@.fields =~= seq![r.fields@[0]@]);
        r
    }

    /// The custom import form (archive path, new name).
    pub fn import_custom() -> (r: Self)
        ensures
            r@ == import_custom_form(),
            form_wf(r@),
    {
        let r = FormState {
            kind: FormKind::ImportCustom,
            labels: vec![Key::LabelImportCustomArchive, Key::LabelImportNameOnly],
            fields: vec![TextField { value: String::new() }, TextField { value: String::new() }],
            focus: 0,
        };
        assert(r@.labels =~= seq![Key::LabelImportCustomArchive, Key::LabelImportNameOnly]);
        assert(r@.fields =~= seq![seq![], seq![]]);
        r
    }

    /// Move focus to the next field (wrapping).
    pub fn focus_next(&mut self)
        requires
            old(self)@.fields.len() > 0,
        ensures
            final(self)@ == (FormView {
                focus: ring_next(old(self)@.focus, old(self)@.fields.len()),
                ..old(self)@
            }),
    {
        self.focus = ring_next_exec(self.focus, self.fields.len());
    }

    /// Move focus to the previous field (wrapping).
    pub fn focus_prev(&mut self)
        requires
            old(self)@.fields.len() > 0,
        ensures
            final(self)@ == (FormView {
                focus: ring_prev(old(self)@.focus, old(self)@.fields.len()),
                ..old(self)@
            }),
    {
        self.focus = ring_prev_exec(self.focus, self.fields.len());
    }

    /// The focused field.
    pub fn current_mut(&mut self) -> (r: &mut TextField)
        requires
            old(self).focus < old(self).fields@.len(),
        ensures
            *r == old(self).fields@[old(self).focus as int],
            final(self).fields@ == old(self).fields@.update(old(self).focus as int, *final(r)),
            final(self).kind == old(self).kind,
            final(self).labels == old(self).labels,
            final(self).focus == old(self).focus,
    {
        &mut self.fields[self.focus]
    }

    /// The trimmed value of field `index`.
    pub fn value(&self, index: usize) -> (r: &str)
        requires
            index < self@.fields.len(),
        ensures
            r@ == trim(self@.fields[index as int]),
    {
        let text = self.fields[index].value.as_str();
        let cs = to_chars(text);
        let (a, b) = trim_bounds(cs.as_slice(), 0, cs.len());
        assert(cs@.subrange(0, cs@.len() as int) =~= cs@);
        text.substring_char(a, b)
    }
}

// ---------------------------------------------------------------------------
// Progress
// ---------------------------------------------------------------------------
/// The spinner glyph for each animation frame.
pub open spec fn spinner_glyph(frame: usize) -> char {
    let i = frame % 10;
    if i == 0 {
        '⠋'
    } else if i == 1 {
        '⠙'
    } else if i == 2 {
        '⠹'
    } else if i == 3 {
        '⠸'
    } else if i == 4 {
        '⠼'
    } else if i == 5 {
        '⠴'
    } else if i == 6 {
        '⠦'
    } else if i == 7 {
        '⠧'
    } else if i == 8 {
        '⠇'
    } else {
        '⠏'
    }
}

impl ProgressState {
    /// A new progress dialog with the given title.
    pub fn new(title: String) -> (r: Self)
        ensures
            r@ == (ProgressView { title: title@, frame: 0 }),
    {
        ProgressState { title, frame: 0 }
    }

    /// Advance the spinner animation.
    pub fn tick(&mut self)
        ensures
            final(self)@ == (ProgressView {
                frame: old(self).frame.wrapping_add(1),
                ..old(self)@
            }),
    {
        self.frame = self.frame.wrapping_add(1);
    }

    /// The current spinner glyph.
    pub fn spinner(&self) -> (r: char)
        ensures
            r == spinner_glyph(self.frame),
    {
        let i = self.frame % 10;
        if i == 0 {
            '⠋'
        } else if i == 1 {
            '⠙'
        } else if i == 2 {
            '⠹'
        } else if i == 3 {
            '⠸'
        } else if i == 4 {
            '⠼'
        } else if i == 5 {
            '⠴'
        } else if i == 6 {
            '⠦'
        } else if i == 7 {
            '⠧'
        } else if i == 8 {
            '⠇'
        } else {
            '⠏'
        }
    }
}

// ---------------------------------------------------------------------------
// Pickers
// ---------------------------------------------------------------------------
/// Whether an installable distro matches a filter (ASCII case-insensitive
/// substring of its id or friendly name; an empty filter matches all).
pub open spec fn item_matches(item: OnlineDistro, filter: Seq<char>) -> bool {
    let needle = lower(filter);
    needle.len() == 0 || contains_seq(lower(item.name@), needle) || contains_seq(
        lower(item.friendly@),
        needle,
    )
}

/// The items matching `filter`, in order.
pub open spec fn filtered_items(items: Seq<OnlineDistro>, filter: Seq<char>) -> Seq<OnlineDistro>
    decreases items.len(),
{
    if items.len() == 0 {
        seq![]
    } else {
        let rest = filtered_items(items.drop_last(), filter);
        if item_matches(items.last(), filter) {
            rest.push(items.last())
        } else {
            rest
        }
    }
}

/// The picker keeps exactly the items whose id or friendly name holds the
/// filter (ASCII case-insensitively), all of them when the filter is empty,
/// in their order: an item is kept whenever the filter occurs in its friendly
/// name, and every kept item is one of the items and matches.
pub proof fn law_filter_searches_id_and_friendly_name(items: Seq<OnlineDistro>, filter: Seq<char>)
    ensures
        forall|i: int|
            0 <= i < items.len() && (lower(filter).len() == 0 || contains_seq(
                lower(items[i].friendly@),
                lower(filter),
            ) || contains_seq(lower(items[i].name@), lower(filter))) ==> filtered_items(
                items,
                filter,
            ).contains(#[trigger] items[i]),
        forall|j: int|
            0 <= j < filtered_items(items, filter).len() ==> items.contains(
                #[trigger] filtered_items(items, filter)[j],
            ) && (lower(filter).len() == 0 || contains_seq(
                lower(filtered_items(items, filter)[j].friendly@),
                lower(filter),
            ) || contains_seq(lower(filtered_items(items, filter)[j].name@), lower(filter))),
    decreases items.len(),
{
    if items.len() > 0 {
        let init = items.drop_last();
        law_filter_searches_id_and_friendly_name(init, filter);
        let rest = filtered_items(init, filter);
        let out = filtered_items(items, filter);
        assert forall|i: int|
            0 <= i < items.len() && (lower(filter).len() == 0 || contains_seq(
                lower(items[i].friendly@),
                lower(filter),
            ) || contains_seq(lower(items[i].name@), lower(filter))) implies out.contains(
            #[trigger] items[i],
        ) by {
            if i < init.len() {
                assert(init[i] == items[i]);
                assert(rest.contains(init[i]));
                let w = choose|w: int| 0 <= w < rest.len() && rest[w] == init[i];
                if item_matches(items.last(), filter) {
                    assert(out[w] == rest[w]);
                }
            } else {
                assert(items[i] == items.last());
                assert(out[out.len() - 1] == items.last());
            }
        }
        assert forall|j: int| 0 <= j < out.len() implies items.contains(#[trigger] out[j]) && (
        lower(filter).len() == 0 || contains_seq(lower(out[j].friendly@), lower(filter))
            || contains_seq(lower(out[j].name@), lower(filter))) by {
            if j < rest.len() {
                assert(out[j] == rest[j]);
                assert(init.contains(rest[j]));
                let w = choose|w: int| 0 <= w < init.len() && init[w] == rest[j];
                assert(items[w] == init[w]);
            } else {
                assert(out[j] == items.last());
                assert(items[items.len() - 1] == items.last());
            }
        }
    }
}

/// The selection after moving down in a list of `count` entries.
pub open spec fn select_down(selected: nat, count: nat) -> nat {
    if count > 0 {
        if selected + 1 <= count - 1 {
            selected + 1
        } else {
            (count - 1) as nat
        }
    } else {
        selected
    }
}

/// The selection after moving up.
pub open spec fn select_up(selected: nat) -> nat {
    if selected > 0 {
        (selected - 1) as nat
    } else {
        0
    }
}

/// Executable [`select_down`].
pub fn select_down_exec(selected: usize, count: usize) -> (r: usize)
    ensures
        r == select_down(selected as nat, count as nat),
{
    if count > 0 {
        if selected < count - 1 {
            selected + 1
        } else {
            count - 1
        }
    } else {
        selected
    }
}

/// Executable [`select_up`].
pub fn select_up_exec(selected: usize) -> (r: usize)
    ensures
        r == select_up(selected as nat),
{
    if selected > 0 {
        selected - 1
    } else {
        0
    }
}

/// The install id selected in a picker, if the selection is in range.
pub open spec fn install_selected_name(p: InstallPickView) -> Option<Seq<char>> {
    let f = filtered_items(p.items, p.filter);
    if p.selected < f.len() {
        Some(f[p.selected as int].name@)
    } else {
        None
    }
}

impl InstallPickState {
    /// A picker over `items`.
    pub fn new(items: Vec<OnlineDistro>) -> (r: Self)
        ensures
            r@ == (InstallPickView { items: items@, filter: seq![], selected: 0 }),
    {
        InstallPickState { items, filter: String::new(), selected: 0 }
    }

    /// The items matching the current filter (case-insensitive substring).
    pub fn filtered(&self) -> (r: Vec<OnlineDistro>)
        ensures
            r@ == filtered_items(self.items@, self.filter@),
    {
        let needle = to_lower(to_chars(self.filter.as_str()).as_slice());
        let mut out: Vec<OnlineDistro> = Vec::new();
        let mut i: usize = 0;
        while i < self.items.len()
            invariant
                i <= self.items@.len(),
                needle@ == lower(self.filter@),
                out@ == filtered_items(self.items@.take(i as int), self.filter@),
            decreases self.items@.len() - i,
        {
            let item = &self.items[i];
            let name = to_lower(to_chars(item.name.as_str()).as_slice());
            let friendly = to_lower(to_chars(item.friendly.as_str()).as_slice());
            let hit = needle.len() == 0 || contains_exec(name.as_slice(), needle.as_slice())
                || contains_exec(friendly.as_slice(), needle.as_slice());
            proof {
                let t = self.items@.take(i + 1);
                assert(t.drop_last() == self.items@.take(i as int));
                assert(t.last() == self.items@[i as int]);
            }
            if hit {
                out.push(item.clone());
            }
            i = i + 1;
        }
        assert(self.items@.take(self.items@.len() as int) == self.items@);
        out
    }

    /// Move selection down within the filtered list.
    pub fn select_next(&mut self)
        ensures
            final(self)@ == (InstallPickView {
                selected: select_down(
                    old(self)@.selected,
                    filtered_items(old(self)@.items, old(self)@.filter).len(),
                ),
                ..old(self)@
            }),
    {
        let count = self.filtered().len();
        self.selected = select_down_exec(self.selected, count);
    }

    /// Move selection up within the filtered list.
    pub fn select_prev(&mut self)
        ensures
            final(self)@ == (InstallPickView {
                selected: select_up(old(self)@.selected),
                ..old(self)@
            }),
    {
        self.selected = select_up_exec(self.selected);
    }

    /// The install id of the selected item, if any.
    pub fn selected_name(&self) -> (r: Option<String>)
        ensures
            opt_view(r) == install_selected_name(self@),
    {
        let f = self.filtered();
        if self.selected < f.len() {
            Some(f[self.selected].name.clone())
        } else {
            None
        }
    }

    /// Append to the filter and reset the selection.
    pub fn push_filter(&mut self, c: char)
        ensures
            final(self)@ == (InstallPickView {
                filter: old(self)@.filter.push(c),
                selected: 0,
                ..old(self)@
            }),
    {
        self.filter.push(c);
        self.selected = 0;
    }

    /// Remove the last filter character and reset the selection.
    pub fn pop_filter(&mut self)
        ensures
            final(self)@ == (InstallPickView {
                filter: pop_last(old(self)@.filter),
                selected: 0,
                ..old(self)@
            }),
    {
        self.filter.pop();
        self.selected = 0;
    }
}

impl ImportPickState {
    /// A picker over `entries`.
    pub fn new(entries: Vec<Archive>) -> (r: Self)
        ensures
            r@ == (ImportPickView { entries: entries@, selected: 0 }),
    {
        ImportPickState { entries, selected: 0 }
    }

    /// Move selection down.
    pub fn select_next(&mut self)
        ensures
            final(self)@ == (ImportPickView {
                selected: select_down(old(self)@.selected, old(self)@.entries.len()),
                ..old(self)@
            }),
    {
        self.selected = select_down_exec(self.selected, self.entries.len());
    }

    /// Move selection up.
    pub fn select_prev(&mut self)
        ensures
            final(self)@ == (ImportPickView { selected: select_up(old(self)@.selected), ..old(self)@ }),
    {
        self.selected = select_up_exec(self.selected);
    }

    /// The selected archive, if the selection is in range.
    pub fn selected_entry(&self) -> (r: Option<&Archive>)
        ensures
            match r {
                Some(a) => self.selected < self.entries@.len() && *a == self.entries@[self.selected as int],
                None => self.selected >= self.entries@.len(),
            },
    {
        if self.selected < self.entries.len() {
            Some(&self.entries[self.selected])
        } else {
            None
        }
    }
}

} // verus!
