//! Modal input handling for the reducer: keys for the open modal (confirm,
//! form, progress, pickers, config editor, quit) and the resulting state
//! transitions. Entered via [`handle_modal_key`].
use vstd::prelude::*;

use super::super::config_edit::{
    config_rendered, config_to_form, config_to_raw, config_wf, raw_backspace, raw_down,
    raw_insert, raw_left, raw_newline, raw_right, raw_up, ring_next, ring_prev, ConfigEditState,
    ConfigEditView, EditMode,
};
use super::super::input::{mods_contain, KeyCode, KeyMods, KeyPress};
use super::super::message::{cmd_views, tf1, Command, CommandView};
use super::super::modal::{
    form_wf, import_custom_form, import_name_form, install_selected_name, pop_last, select_down,
    select_up, Confirm, ConfirmView, FormKind, FormKindView, FormState, FormView, ImportPickState,
    ImportPickView, InstallPickState, InstallPickView, Modal, ModalView, ProgressState,
    ProgressView, TypedView,
};
use super::super::model::{model_wf, set_status_spec, Model, ModelView};
use super::{plain_confirm, with_modal, Step};
use crate::config::target_label;
use crate::i18n::{t, text, tf_spec, Key};
use crate::manage::{derived_name, format_of, is_vhd_name, sanitized};
use crate::text::{eq_ignore_case, join_path, trim};
use crate::wsl::Distro;

verus! {

// ---------------------------------------------------------------------------
// Specification
// ---------------------------------------------------------------------------
/// The quit dialog: `y`, `Y` or `Enter` quits; any other key closes it.
pub open spec fn quit_key_spec(m: ModelView, k: KeyPress) -> Step {
    if k.code == KeyCode::Char('y') || k.code == KeyCode::Char('Y') || k.code == KeyCode::Enter {
        (ModelView { should_quit: true, ..m }, seq![])
    } else {
        (m, seq![])
    }
}

/// Whether a confirmation may proceed: no typed guard, or the typed text
/// matches the expected name.
pub open spec fn confirm_allowed(c: ConfirmView) -> bool {
    match c.require_typed {
        Some(t) => t.input == t.expected,
        None => true,
    }
}

/// Confirmed: open the progress dialog and/or show the status the dialog
/// carries, and issue its commands.
pub open spec fn confirm_action_spec(m: ModelView, c: ConfirmView) -> Step {
    let m1 = match c.progress_title {
        Some(title) => with_modal(m, ModalView::Progress(ProgressView { title, frame: 0 })),
        None => m,
    };
    let m2 = match c.status {
        Some(s) => set_status_spec(m1, s),
        None => m1,
    };
    (m2, c.on_confirm)
}

/// A key in a confirmation dialog (already taken off the model).
pub open spec fn confirm_key_spec(m: ModelView, c: ConfirmView, k: KeyPress) -> Step {
    match k.code {
        KeyCode::Esc => (m, seq![]),
        KeyCode::Enter => if confirm_allowed(c) {
            confirm_action_spec(m, c)
        } else {
            (with_modal(m, ModalView::Confirm(c)), seq![])
        },
        KeyCode::Char(ch) => match c.require_typed {
            Some(t) => (
                with_modal(
                    m,
                    ModalView::Confirm(
                        ConfirmView {
                            require_typed: Some(TypedView { input: t.input.push(ch), ..t }),
                            ..c
                        },
                    ),
                ),
                seq![],
            ),
            None => if ch == 'y' || ch == 'Y' {
                confirm_action_spec(m, c)
            } else if ch == 'n' || ch == 'N' {
                (m, seq![])
            } else {
                (with_modal(m, ModalView::Confirm(c)), seq![])
            },
        },
        KeyCode::Backspace => (
            with_modal(
                m,
                ModalView::Confirm(
                    ConfirmView {
                        require_typed: match c.require_typed {
                            Some(t) => Some(TypedView { input: pop_last(t.input), ..t }),
                            None => None,
                        },
                        ..c
                    },
                ),
            ),
            seq![],
        ),
        _ => (with_modal(m, ModalView::Confirm(c)), seq![]),
    }
}

/// Start an import of `tar` as `name`: ask first when a distro of that name
/// (ASCII case-insensitive) exists, else start right away.
pub open spec fn submit_import_spec(m: ModelView, name: Seq<char>, tar: Seq<char>) -> Step {
    let dir = join_path(join_path(m.manage_dir, "installed"@), sanitized(name));
    let title = tf_spec(m.lang, Key::ProgImporting, seq![name]);
    let import = CommandView::Import { name, dir, tar, vhd: is_vhd_name(tar) };
    if exists|i: int| 0 <= i < m.distros.len() && eq_ignore_case(#[trigger] m.distros[i].name@, name) {
        (
            with_modal(
                m,
                ModalView::Confirm(
                    ConfirmView {
                        prompt: tf_spec(m.lang, Key::PromptImportOverwrite, seq![name]),
                        require_typed: None,
                        on_confirm: seq![import],
                        progress_title: Some(title),
                        status: None,
                    },
                ),
            ),
            seq![],
        )
    } else {
        (with_modal(m, ModalView::Progress(ProgressView { title, frame: 0 })), seq![import])
    }
}

/// `Enter` in a form: validate and submit it (an empty required field keeps
/// the form open).
pub open spec fn submit_form_spec(m: ModelView, f: FormView) -> Step {
    match f.kind {
        FormKindView::Export { distro } => {
            let filename = trim(f.fields[0]);
            if filename.len() == 0 {
                (with_modal(m, ModalView::Form(f)), seq![])
            } else {
                (
                    with_modal(
                        m,
                        ModalView::Progress(
                            ProgressView {
                                title: tf_spec(m.lang, Key::ProgExporting, seq![distro]),
                                frame: 0,
                            },
                        ),
                    ),
                    seq![
                        CommandView::Export {
                            name: distro,
                            path: join_path(join_path(m.manage_dir, "exports"@), filename),
                            format: format_of(filename),
                        },
                    ],
                )
            }
        },
        FormKindView::ImportName { tar } => {
            let name = trim(f.fields[0]);
            if name.len() == 0 {
                (with_modal(m, ModalView::Form(f)), seq![])
            } else {
                submit_import_spec(m, name, tar)
            }
        },
        FormKindView::ImportCustom => {
            let tar = trim(f.fields[0]);
            let name = trim(f.fields[1]);
            if tar.len() == 0 || name.len() == 0 {
                (with_modal(m, ModalView::Form(f)), seq![])
            } else {
                submit_import_spec(m, name, tar)
            }
        },
    }
}

/// A key in a form.
pub open spec fn form_key_spec(m: ModelView, f: FormView, k: KeyPress) -> Step {
    match k.code {
        KeyCode::Esc => (m, seq![]),
        KeyCode::Tab | KeyCode::Down => (
            with_modal(
                m,
                ModalView::Form(FormView { focus: ring_next(f.focus, f.fields.len()), ..f }),
            ),
            seq![],
        ),
        KeyCode::BackTab | KeyCode::Up => (
            with_modal(
                m,
                ModalView::Form(FormView { focus: ring_prev(f.focus, f.fields.len()), ..f }),
            ),
            seq![],
        ),
        KeyCode::Enter => submit_form_spec(m, f),
        KeyCode::Char(c) => (
            with_modal(
                m,
                ModalView::Form(
                    FormView {
                        fields: f.fields.update(f.focus as int, f.fields[f.focus as int].push(c)),
                        ..f
                    },
                ),
            ),
            seq![],
        ),
        KeyCode::Backspace => (
            with_modal(
                m,
                ModalView::Form(
                    FormView {
                        fields: f.fields.update(f.focus as int, pop_last(f.fields[f.focus as int])),
                        ..f
                    },
                ),
            ),
            seq![],
        ),
        _ => (with_modal(m, ModalView::Form(f)), seq![]),
    }
}

/// A key in the progress dialog: `Esc` asks to cancel the operation.
pub open spec fn progress_key_spec(m: ModelView, p: ProgressView, k: KeyPress) -> Step {
    if k.code == KeyCode::Esc {
        (set_status_spec(m, text(m.lang, Key::StatusCancelling)), seq![CommandView::CancelOp])
    } else {
        (with_modal(m, ModalView::Progress(p)), seq![])
    }
}

/// A key in the install picker.
pub open spec fn install_key_spec(m: ModelView, p: InstallPickView, k: KeyPress) -> Step {
    match k.code {
        KeyCode::Esc => (m, seq![]),
        KeyCode::Down => (
            with_modal(
                m,
                ModalView::InstallPick(
                    InstallPickView {
                        selected: select_down(
                            p.selected,
                            super::super::modal::filtered_items(p.items, p.filter).len(),
                        ),
                        ..p
                    },
                ),
            ),
            seq![],
        ),
        KeyCode::Up => (
            with_modal(
                m,
                ModalView::InstallPick(InstallPickView { selected: select_up(p.selected), ..p }),
            ),
            seq![],
        ),
        KeyCode::Enter => match install_selected_name(p) {
            Some(n) => (
                with_modal(
                    m,
                    ModalView::Progress(
                        ProgressView { title: "Installing '"@ + n + "'"@, frame: 0 },
                    ),
                ),
                seq![CommandView::Install { name: n }],
            ),
            None => (with_modal(m, ModalView::InstallPick(p)), seq![]),
        },
        KeyCode::Char(c) => (
            with_modal(
                m,
                ModalView::InstallPick(
                    InstallPickView { filter: p.filter.push(c), selected: 0, ..p },
                ),
            ),
            seq![],
        ),
        KeyCode::Backspace => (
            with_modal(
                m,
                ModalView::InstallPick(
                    InstallPickView { filter: pop_last(p.filter), selected: 0, ..p },
                ),
            ),
            seq![],
        ),
        _ => (with_modal(m, ModalView::InstallPick(p)), seq![]),
    }
}

/// A key in the import picker.
pub open spec fn import_pick_key_spec(m: ModelView, p: ImportPickView, k: KeyPress) -> Step {
    let c = k.code;
    let arrows = !(m.keybind_style is VimOnly);
    let vim = !(m.keybind_style is ArrowsOnly);
    if c == KeyCode::Esc {
        (m, seq![])
    } else if (c == KeyCode::Down && arrows) || (c == KeyCode::Char('j') && vim) {
        (
            with_modal(
                m,
                ModalView::ImportPick(
                    ImportPickView { selected: select_down(p.selected, p.entries.len()), ..p },
                ),
            ),
            seq![],
        )
    } else if (c == KeyCode::Up && arrows) || (c == KeyCode::Char('k') && vim) {
        (
            with_modal(
                m,
                ModalView::ImportPick(ImportPickView { selected: select_up(p.selected), ..p }),
            ),
            seq![],
        )
    } else if c == KeyCode::Enter {
        if p.selected < p.entries.len() {
            let e = p.entries[p.selected as int];
            (
                with_modal(m, ModalView::Form(import_name_form(e.path@, derived_name(e.name@)))),
                seq![],
            )
        } else {
            (with_modal(m, ModalView::ImportPick(p)), seq![])
        }
    } else if c == KeyCode::Char('c') {
        (with_modal(m, ModalView::Form(import_custom_form())), seq![])
    } else if c == KeyCode::Char('d') {
        if p.selected < p.entries.len() {
            let e = p.entries[p.selected as int];
            (
                with_modal(
                    m,
                    ModalView::Confirm(
                        plain_confirm(
                            tf_spec(m.lang, Key::PromptDeleteArchive, seq![e.name@]),
                            CommandView::DeleteExport(e.path@),
                        ),
                    ),
                ),
                seq![],
            )
        } else {
            (with_modal(m, ModalView::ImportPick(p)), seq![])
        }
    } else {
        (with_modal(m, ModalView::ImportPick(p)), seq![])
    }
}

/// A key in the config editor's form view.
pub open spec fn config_form_key_spec(s: ConfigEditView, k: KeyPress) -> ConfigEditView {
    match k.code {
        KeyCode::Up | KeyCode::BackTab => ConfigEditView {
            focus: if s.fields.len() > 0 {
                ring_prev(s.focus, s.fields.len())
            } else {
                s.focus
            },
            ..s
        },
        KeyCode::Down => ConfigEditView {
            focus: if s.fields.len() > 0 {
                ring_next(s.focus, s.fields.len())
            } else {
                s.focus
            },
            ..s
        },
        KeyCode::Char(c) => ConfigEditView {
            fields: if s.focus < s.fields.len() {
                s.fields.update(
                    s.focus as int,
                    (s.fields[s.focus as int].0, s.fields[s.focus as int].1.push(c)),
                )
            } else {
                s.fields
            },
            ..s
        },
        KeyCode::Backspace => ConfigEditView {
            fields: if s.focus < s.fields.len() {
                s.fields.update(
                    s.focus as int,
                    (s.fields[s.focus as int].0, pop_last(s.fields[s.focus as int].1)),
                )
            } else {
                s.fields
            },
            ..s
        },
        _ => s,
    }
}

/// A key in the config editor's raw view.
pub open spec fn config_raw_key_spec(s: ConfigEditView, k: KeyPress) -> ConfigEditView {
    match k.code {
        KeyCode::Char(c) => ConfigEditView { raw: raw_insert(s.raw, c), ..s },
        KeyCode::Backspace => ConfigEditView { raw: raw_backspace(s.raw), ..s },
        KeyCode::Enter => ConfigEditView { raw: raw_newline(s.raw), ..s },
        KeyCode::Left => ConfigEditView { raw: raw_left(s.raw), ..s },
        KeyCode::Right => ConfigEditView { raw: raw_right(s.raw), ..s },
        KeyCode::Up => ConfigEditView { raw: raw_up(s.raw), ..s },
        KeyCode::Down => ConfigEditView { raw: raw_down(s.raw), ..s },
        _ => s,
    }
}

/// A key in the config editor: `Ctrl+S` saves and closes, `Esc` closes, `Tab`
/// switches view, anything else edits the active view.
pub open spec fn config_key_spec(m: ModelView, s: ConfigEditView, k: KeyPress) -> Step {
    if k.code == KeyCode::Char('s') && mods_contain(k.modifiers, KeyMods { ctrl: true, shift: false }) {
        (
            set_status_spec(m, tf_spec(m.lang, Key::StatusSaving, seq![target_label(s.target)])),
            seq![CommandView::SaveConfig { target: s.target, content: config_rendered(s) }],
        )
    } else if k.code == KeyCode::Esc {
        (m, seq![])
    } else if k.code == KeyCode::Tab {
        (
            with_modal(
                m,
                ModalView::ConfigEdit(
                    match s.mode {
                        EditMode::Form => config_to_raw(s),
                        EditMode::Raw => config_to_form(s),
                    },
                ),
            ),
            seq![],
        )
    } else {
        (
            with_modal(
                m,
                ModalView::ConfigEdit(
                    match s.mode {
                        EditMode::Form => config_form_key_spec(s, k),
                        EditMode::Raw => config_raw_key_spec(s, k),
                    },
                ),
            ),
            seq![],
        )
    }
}

/// A key while a modal is open: the modal is taken off the model and its
/// handler decides whether (and as what) it is put back.
pub open spec fn modal_key_spec(m0: ModelView, k: KeyPress) -> Step {
    let m = ModelView { modal: None, ..m0 };
    match m0.modal {
        Some(ModalView::Error(_)) => (m, seq![]),
        Some(ModalView::Confirm(c)) => confirm_key_spec(m, c, k),
        Some(ModalView::Form(f)) => form_key_spec(m, f, k),
        Some(ModalView::Progress(p)) => progress_key_spec(m, p, k),
        Some(ModalView::InstallPick(p)) => install_key_spec(m, p, k),
        Some(ModalView::ImportPick(p)) => import_pick_key_spec(m, p, k),
        Some(ModalView::ConfigEdit(s)) => config_key_spec(m, s, k),
        Some(ModalView::Help) => (m, seq![]),
        Some(ModalView::Quit) => quit_key_spec(m, k),
        None => (m0, seq![]),
    }
}

// ---------------------------------------------------------------------------
// Handlers
// ---------------------------------------------------------------------------
/// No commands.
pub fn no_cmds() -> (r: Vec<Command>)
    ensures
        cmd_views(r@) == Seq::<CommandView>::empty(),
{
    let r: Vec<Command> = Vec::new();
    assert(cmd_views(r@) =~= Seq::<CommandView>::empty());
    r
}

/// A single command.
pub fn one_cmd(c: Command) -> (r: Vec<Command>)
    ensures
        cmd_views(r@) == seq![c@],
{
    let mut r: Vec<Command> = Vec::new();
    r.push(c);
    assert(cmd_views(r@) =~= seq![c@]);
    r
}

/// Handle a key while a modal is open.
pub fn handle_modal_key(model: &mut Model, key: KeyPress) -> (r: Vec<Command>)
    requires
        model_wf(old(model)@),
    ensures
        final(model)@ == modal_key_spec(old(model)@, key).0,
        cmd_views(r@) == modal_key_spec(old(model)@, key).1,
        model_wf(final(model)@),
{
    let taken = model.modal.take();
    match taken {
        None => no_cmds(),
        Some(modal) => match modal {
            Modal::Error { .. } => no_cmds(),
            Modal::Confirm(confirm) => handle_confirm_key(model, confirm, key),
            Modal::Form(form) => handle_form_key(model, form, key),
            Modal::Progress(progress) => handle_progress_key(model, progress, key),
            Modal::InstallPick(pick) => handle_install_key(model, pick, key),
            Modal::ImportPick(pick) => handle_import_pick_key(model, pick, key),
            Modal::ConfigEdit(state) => handle_config_key(model, state, key),
            Modal::Help => no_cmds(),
            Modal::Quit => handle_quit_key(model, key),
        },
    }
}

fn handle_quit_key(model: &mut Model, key: KeyPress) -> (r: Vec<Command>)
    requires
        old(model).modal is None,
        old(model)@.inner_disk_attempted.no_duplicates(),
    ensures
        final(model)@ == quit_key_spec(old(model)@, key).0,
        cmd_views(r@) == quit_key_spec(old(model)@, key).1,
        model_wf(final(model)@),
{
    if key.code == KeyCode::Char('y') || key.code == KeyCode::Char('Y') || key.code
        == KeyCode::Enter {
        model.should_quit = true;
    }
    no_cmds()
}

fn handle_confirm_key(model: &mut Model, confirm: Confirm, key: KeyPress) -> (r: Vec<Command>)
    requires
        old(model).modal is None,
        old(model)@.inner_disk_attempted.no_duplicates(),
    ensures
        final(model)@ == confirm_key_spec(old(model)@, confirm@, key).0,
        cmd_views(r@) == confirm_key_spec(old(model)@, confirm@, key).1,
        model_wf(final(model)@),
{
    let mut confirm = confirm;
    match key.code {
        KeyCode::Esc => no_cmds(),
        KeyCode::Enter => {
            let allowed = match &confirm.require_typed {
                Some(typed) => typed.matches(),
                None => true,
            };
            if allowed {
                confirm_action(model, confirm)
            } else {
                model.modal = Some(Modal::Confirm(confirm));
                no_cmds()
            }
        },
        KeyCode::Char(c) => {
            match confirm.require_typed.take() {
                Some(mut typed) => {
                    typed.input.push(c);
                    confirm.require_typed = Some(typed);
                    model.modal = Some(Modal::Confirm(confirm));
                    no_cmds()
                },
                None => {
                    if c == 'y' || c == 'Y' {
                        confirm_action(model, confirm)
                    } else if c == 'n' || c == 'N' {
                        no_cmds()
                    } else {
                        model.modal = Some(Modal::Confirm(confirm));
                        no_cmds()
                    }
                },
            }
        },
        KeyCode::Backspace => {
            match confirm.require_typed.take() {
                Some(mut typed) => {
                    typed.input.pop();
                    confirm.require_typed = Some(typed);
                },
                None => {},
            }
            model.modal = Some(Modal::Confirm(confirm));
            no_cmds()
        },
        _ => {
            model.modal = Some(Modal::Confirm(confirm));
            no_cmds()
        },
    }
}

fn confirm_action(model: &mut Model, confirm: Confirm) -> (r: Vec<Command>)
    requires
        old(model).modal is None,
        old(model)@.inner_disk_attempted.no_duplicates(),
    ensures
        final(model)@ == confirm_action_spec(old(model)@, confirm@).0,
        cmd_views(r@) == confirm_action_spec(old(model)@, confirm@).1,
        model_wf(final(model)@),
{
    let Confirm { prompt: _, require_typed: _, on_confirm, progress_title, status } = confirm;
    match progress_title {
        Some(title) => {
            model.modal = Some(Modal::Progress(ProgressState::new(title)));
        },
        None => {},
    }
    match status {
        Some(s) => model.set_status(s),
        None => {},
    }
    on_confirm
}

fn handle_form_key(model: &mut Model, form: FormState, key: KeyPress) -> (r: Vec<Command>)
    requires
        old(model).modal is None,
        old(model)@.inner_disk_attempted.no_duplicates(),
        form_wf(form@),
    ensures
        final(model)@ == form_key_spec(old(model)@, form@, key).0,
        cmd_views(r@) == form_key_spec(old(model)@, form@, key).1,
        model_wf(final(model)@),
{
    let mut form = form;
    match key.code {
        KeyCode::Esc => no_cmds(),
        KeyCode::Tab | KeyCode::Down => {
            form.focus_next();
            model.modal = Some(Modal::Form(form));
            no_cmds()
        },
        KeyCode::BackTab | KeyCode::Up => {
            form.focus_prev();
            model.modal = Some(Modal::Form(form));
            no_cmds()
        },
        KeyCode::Enter => submit_form(model, form),
        KeyCode::Char(c) => {
            let ghost f0 = form@;
            form.current_mut().insert(c);
            assert(form@.fields =~= f0.fields.update(f0.focus as int, f0.fields[f0.focus as int].push(c)));
            model.modal = Some(Modal::Form(form));
            no_cmds()
        },
        KeyCode::Backspace => {
            let ghost f0 = form@;
            form.current_mut().backspace();
            assert(form@.fields =~= f0.fields.update(f0.focus as int, pop_last(f0.fields[f0.focus as int])));
            model.modal = Some(Modal::Form(form));
            no_cmds()
        },
        _ => {
            model.modal = Some(Modal::Form(form));
            no_cmds()
        },
    }
}

/// The trimmed text of a form field.
fn trimmed_field(form: &FormState, index: usize) -> (r: String)
    requires
        index < form@.fields.len(),
    ensures
        r@ == trim(form@.fields[index as int]),
{
    form.value(index).to_owned()
}

fn submit_form(model: &mut Model, form: FormState) -> (r: Vec<Command>)
    requires
        old(model).modal is None,
        old(model)@.inner_disk_attempted.no_duplicates(),
        form_wf(form@),
    ensures
        final(model)@ == submit_form_spec(old(model)@, form@).0,
        cmd_views(r@) == submit_form_spec(old(model)@, form@).1,
        model_wf(final(model)@),
{
    let lang = model.lang;
    match &form.kind {
        FormKind::Export { distro } => {
            let filename = trimmed_field(&form, 0);
            if crate::text::to_chars(filename.as_str()).len() == 0 {
                let name = distro.clone();
                model.modal = Some(Modal::Form(form));
                return no_cmds();
            }
            let exports = crate::manage::exports_dir(model.manage_dir.as_str());
            let path = crate::text::join_path_exec(exports.as_str(), filename.as_str());
            let format = crate::manage::ExportFormat::from_filename(filename.as_str());
            let title = tf1(lang, Key::ProgExporting, distro.as_str());
            let name = distro.clone();
            model.modal = Some(Modal::Progress(ProgressState::new(title)));
            one_cmd(Command::Export { name, path, format })
        },
        FormKind::ImportName { tar } => {
            let name = trimmed_field(&form, 0);
            if crate::text::to_chars(name.as_str()).len() == 0 {
                model.modal = Some(Modal::Form(form));
                return no_cmds();
            }
            let tar = tar.clone();
            submit_import(model, name, tar)
        },
        FormKind::ImportCustom => {
            let tar = trimmed_field(&form, 0);
            let name = trimmed_field(&form, 1);
            if crate::text::to_chars(tar.as_str()).len() == 0 || crate::text::to_chars(
                name.as_str(),
            ).len() == 0 {
                model.modal = Some(Modal::Form(form));
                return no_cmds();
            }
            submit_import(model, name, tar)
        },
    }
}

/// Whether a registered distro has this name (ASCII case-insensitive).
fn name_taken(distros: &Vec<Distro>, name: &str) -> (r: bool)
    ensures
        r == exists|i: int|
            0 <= i < distros@.len() && eq_ignore_case(#[trigger] distros@[i].name@, name@),
{
    let n = crate::text::to_chars(name);
    let mut i: usize = 0;
    while i < distros.len()
        invariant
            i <= distros@.len(),
            n@ == name@,
            forall|j: int| 0 <= j < i ==> !eq_ignore_case(#[trigger] distros@[j].name@, name@),
        decreases distros@.len() - i,
    {
        let d = crate::text::to_chars(distros[i].name.as_str());
        if crate::text::eq_ignore_case_exec(d.as_slice(), n.as_slice()) {
            return true;
        }
        i = i + 1;
    }
    false
}

fn submit_import(model: &mut Model, name: String, tar: String) -> (r: Vec<Command>)
    requires
        old(model).modal is None,
        old(model)@.inner_disk_attempted.no_duplicates(),
    ensures
        final(model)@ == submit_import_spec(old(model)@, name@, tar@).0,
        cmd_views(r@) == submit_import_spec(old(model)@, name@, tar@).1,
        model_wf(final(model)@),
{
    let lang = model.lang;
    let dir = crate::manage::installed_dir(model.manage_dir.as_str(), name.as_str());
    let vhd = crate::manage::is_vhd_archive(tar.as_str());
    let title = tf1(lang, Key::ProgImporting, name.as_str());
    let taken = name_taken(&model.distros, name.as_str());
    if taken {
        let prompt = tf1(lang, Key::PromptImportOverwrite, name.as_str());
        let import = Command::Import { name, dir, tar, vhd };
        let on_confirm = one_cmd(import);
        model.modal = Some(
            Modal::Confirm(
                Confirm {
                    prompt,
                    require_typed: None,
                    on_confirm,
                    progress_title: Some(title),
                    status: None,
                },
            ),
        );
        no_cmds()
    } else {
        let import = Command::Import { name, dir, tar, vhd };
        model.modal = Some(Modal::Progress(ProgressState::new(title)));
        one_cmd(import)
    }
}

fn handle_progress_key(model: &mut Model, progress: ProgressState, key: KeyPress) -> (r: Vec<
    Command,
>)
    requires
        old(model).modal is None,
        old(model)@.inner_disk_attempted.no_duplicates(),
    ensures
        final(model)@ == progress_key_spec(old(model)@, progress@, key).0,
        cmd_views(r@) == progress_key_spec(old(model)@, progress@, key).1,
        model_wf(final(model)@),
{
    if key.code == KeyCode::Esc {
        let msg = t(model.lang, Key::StatusCancelling).to_owned();
        model.set_status(msg);
        one_cmd(Command::CancelOp)
    } else {
        model.modal = Some(Modal::Progress(progress));
        no_cmds()
    }
}

fn handle_install_key(model: &mut Model, pick: InstallPickState, key: KeyPress) -> (r: Vec<
    Command,
>)
    requires
        old(model).modal is None,
        old(model)@.inner_disk_attempted.no_duplicates(),
    ensures
        final(model)@ == install_key_spec(old(model)@, pick@, key).0,
        cmd_views(r@) == install_key_spec(old(model)@, pick@, key).1,
        model_wf(final(model)@),
{
    let mut pick = pick;
    match key.code {
        KeyCode::Esc => no_cmds(),
        KeyCode::Down => {
            pick.select_next();
            model.modal = Some(Modal::InstallPick(pick));
            no_cmds()
        },
        KeyCode::Up => {
            pick.select_prev();
            model.modal = Some(Modal::InstallPick(pick));
            no_cmds()
        },
        KeyCode::Enter => {
            match pick.selected_name() {
                Some(name) => {
                    let mut title = String::from_str("Installing '");
                    title.append(name.as_str());
                    title.append("'");
                    model.modal = Some(Modal::Progress(ProgressState::new(title)));
                    one_cmd(Command::Install { name })
                },
                None => {
                    model.modal = Some(Modal::InstallPick(pick));
                    no_cmds()
                },
            }
        },
        KeyCode::Char(c) => {
            pick.push_filter(c);
            model.modal = Some(Modal::InstallPick(pick));
            no_cmds()
        },
        KeyCode::Backspace => {
            pick.pop_filter();
            model.modal = Some(Modal::InstallPick(pick));
            no_cmds()
        },
        _ => {
            model.modal = Some(Modal::InstallPick(pick));
            no_cmds()
        },
    }
}

fn handle_import_pick_key(model: &mut Model, pick: ImportPickState, key: KeyPress) -> (r: Vec<
    Command,
>)
    requires
        old(model).modal is None,
        old(model)@.inner_disk_attempted.no_duplicates(),
    ensures
        final(model)@ == import_pick_key_spec(old(model)@, pick@, key).0,
        cmd_views(r@) == import_pick_key_spec(old(model)@, pick@, key).1,
        model_wf(final(model)@),
{
    let mut pick = pick;
    let c = key.code;
    let arrows = model.keybind_style.arrows_enabled();
    let vim = model.keybind_style.vim_enabled();
    if c == KeyCode::Esc {
        no_cmds()
    } else if (c == KeyCode::Down && arrows) || (c == KeyCode::Char('j') && vim) {
        pick.select_next();
        model.modal = Some(Modal::ImportPick(pick));
        no_cmds()
    } else if (c == KeyCode::Up && arrows) || (c == KeyCode::Char('k') && vim) {
        pick.select_prev();
        model.modal = Some(Modal::ImportPick(pick));
        no_cmds()
    } else if c == KeyCode::Enter {
        match pick.selected_entry() {
            Some(entry) => {
                let tar = entry.path.clone();
                let default_name = crate::manage::derive_distro_name(entry.name.as_str());
                model.modal = Some(Modal::Form(FormState::import_name(tar, default_name)));
            },
            None => {
                model.modal = Some(Modal::ImportPick(pick));
            },
        }
        no_cmds()
    } else if c == KeyCode::Char('c') {
        model.modal = Some(Modal::Form(FormState::import_custom()));
        no_cmds()
    } else if c == KeyCode::Char('d') {
        match pick.selected_entry() {
            Some(entry) => {
                let prompt = tf1(model.lang, Key::PromptDeleteArchive, entry.name.as_str());
                let path = entry.path.clone();
                let on_confirm = one_cmd(Command::DeleteExport(path));
                model.modal = Some(
                    Modal::Confirm(
                        Confirm {
                            prompt,
                            require_typed: None,
                            on_confirm,
                            progress_title: None,
                            status: None,
                        },
                    ),
                );
            },
            None => {
                model.modal = Some(Modal::ImportPick(pick));
            },
        }
        no_cmds()
    } else {
        model.modal = Some(Modal::ImportPick(pick));
        no_cmds()
    }
}

fn handle_config_key(model: &mut Model, state: ConfigEditState, key: KeyPress) -> (r: Vec<
    Command,
>)
    requires
        old(model).modal is None,
        old(model)@.inner_disk_attempted.no_duplicates(),
        config_wf(state@),
    ensures
        final(model)@ == config_key_spec(old(model)@, state@, key).0,
        cmd_views(r@) == config_key_spec(old(model)@, state@, key).1,
        model_wf(final(model)@),
{
    let mut state = state;
    if key.code == KeyCode::Char('s') && key.modifiers.contains(KeyMods::control()) {
        let content = state.rendered();
        let target = state.target.clone();
        let label = target.label();
        model.set_status(tf1(model.lang, Key::StatusSaving, label.as_str()));
        return one_cmd(Command::SaveConfig { target, content });
    }
    if key.code == KeyCode::Esc {
        return no_cmds();
    }
    if key.code == KeyCode::Tab {
        match state.mode {
            EditMode::Form => state.to_raw(),
            EditMode::Raw => state.to_form(),
        }
    } else {
        match state.mode {
            EditMode::Form => config_form_key(&mut state, key),
            EditMode::Raw => config_raw_key(&mut state, key),
        }
    }
    model.modal = Some(Modal::ConfigEdit(state));
    no_cmds()
}

fn config_form_key(state: &mut ConfigEditState, key: KeyPress)
    requires
        config_wf(old(state)@),
    ensures
        final(state)@ == config_form_key_spec(old(state)@, key),
        config_wf(final(state)@),
{
    match key.code {
        KeyCode::Up | KeyCode::BackTab => state.focus_prev(),
        KeyCode::Down => state.focus_next(),
        KeyCode::Char(c) => {
            let ghost before = state@;
            if let Some(field) = state.current_field_mut() {
                field.input.insert(c);
            }
            assert(state@.fields =~= config_form_key_spec(before, key).fields);
        },
        KeyCode::Backspace => {
            let ghost before = state@;
            if let Some(field) = state.current_field_mut() {
                field.input.backspace();
            }
            assert(state@.fields =~= config_form_key_spec(before, key).fields);
        },
        _ => {},
    }
}

fn config_raw_key(state: &mut ConfigEditState, key: KeyPress)
    requires
        config_wf(old(state)@),
    ensures
        final(state)@ == config_raw_key_spec(old(state)@, key),
        config_wf(final(state)@),
{
    match key.code {
        KeyCode::Char(c) => state.raw.insert(c),
        KeyCode::Backspace => state.raw.backspace(),
        KeyCode::Enter => state.raw.newline(),
        KeyCode::Left => state.raw.left(),
        KeyCode::Right => state.raw.right(),
        KeyCode::Up => state.raw.up(),
        KeyCode::Down => state.raw.down(),
        _ => {},
    }
}

} // verus!
