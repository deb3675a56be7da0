//! Laws of the reducer: what every action keeps, and what only a confirmation
//! can do.
use vstd::prelude::*;

use super::config_edit::{config_rendered, ConfigEditView};
use super::input::{mods_contain, KeyCode, KeyMods, KeyPress};
use super::message::{ActionView, CommandView, Event, LifecycleView};
use super::modal::{select_down, select_up, ConfirmView, ImportPickView, ModalView, ProgressView};
use super::model::{clamp_spec, filter_distros, set_status_spec, status_ttl, visible, ModelView};
use super::update::modal::{
    config_key_spec, confirm_allowed, confirm_key_spec, form_key_spec, import_pick_key_spec,
    install_key_spec, modal_key_spec, progress_key_spec, quit_key_spec, submit_form_spec,
    submit_import_spec,
};
use super::update::{
    carry_inner, event_spec, filter_key_spec, first_named, first_running, key_spec, list_key_spec,
    plain_confirm, with_modal,
    refreshed_spec, sample_inner_disk_spec, sample_vm_memory_spec, Step, update_spec,
};
use crate::config::target_label;
use crate::i18n::{tf_spec, Key};
use crate::wsl::Distro;

verus! {

/// Whether a key press confirms a quit dialog.
pub open spec fn quit_confirm_key(k: KeyPress) -> bool {
    k.code == KeyCode::Char('y') || k.code == KeyCode::Char('Y') || k.code == KeyCode::Enter
}

/// Whether an action is a key press that confirms a quit dialog.
pub open spec fn confirms_quit(a: ActionView) -> bool {
    match a {
        ActionView::Event(Event::Key(k)) => quit_confirm_key(k),
        _ => false,
    }
}

/// The app only starts quitting on an explicit quit request, or on a
/// confirming key while the quit dialog is open (`q`, `Esc` and `Ctrl+C`
/// only ask).
pub proof fn law_quit_needs_confirmation(m: ModelView, a: ActionView)
    ensures
        update_spec(m, a).0.should_quit && !m.should_quit ==> (a is Quit) || (m.modal == Some(
            ModalView::Quit,
        ) && confirms_quit(a)),
{
}

/// Whether a command cannot be undone: stopping a distro, shutting down the
/// VM, unregistering a distro, or deleting an archive.
pub open spec fn is_destructive(c: CommandView) -> bool {
    match c {
        CommandView::Lifecycle(LifecycleView::Terminate(_)) => true,
        CommandView::Lifecycle(LifecycleView::Shutdown) => true,
        CommandView::Lifecycle(LifecycleView::Unregister(_)) => true,
        CommandView::DeleteExport(_) => true,
        _ => false,
    }
}

/// Whether `cmds` are exactly what the open confirmation dialog holds, and the
/// dialog's typed guard (if any) is met.
pub open spec fn confirmed_by_dialog(m: ModelView, cmds: Seq<CommandView>) -> bool {
    match m.modal {
        Some(ModalView::Confirm(c)) => confirm_allowed(c) && cmds == c.on_confirm,
        _ => false,
    }
}

/// A destructive command is only ever issued by confirming a dialog that holds
/// it: never straight from a key in the list.
pub proof fn law_destructive_commands_need_confirmation(m: ModelView, a: ActionView, i: int)
    requires
        0 <= i < update_spec(m, a).1.len(),
        is_destructive(update_spec(m, a).1[i]),
    ensures
        confirmed_by_dialog(m, update_spec(m, a).1),
{
}

/// Whether the open dialog asks for a typed name that has not been typed.
pub open spec fn typed_guard_unmet(m: ModelView) -> bool {
    match m.modal {
        Some(ModalView::Confirm(c)) => match c.require_typed {
            Some(t) => t.input != t.expected,
            None => false,
        },
        _ => false,
    }
}

/// While a dialog's typed name does not match, no key issues any command
/// (so `Enter` cannot unregister a distro until its name is typed).
pub proof fn law_typed_guard_blocks_commands(m: ModelView, k: KeyPress)
    requires
        typed_guard_unmet(m),
    ensures
        update_spec(m, ActionView::Event(Event::Key(k))).1.len() == 0,
{
}

/// The selection is on a visible row (or at the top of an empty list).
pub open spec fn selection_in_range(m: ModelView) -> bool {
    m.selected == 0 || m.selected < visible(m).len()
}

proof fn lemma_filter_same_names(ds: Seq<Distro>, i: int, d: Distro, f: Seq<char>)
    requires
        0 <= i < ds.len(),
        d.name == ds[i].name,
    ensures
        filter_distros(ds.update(i, d), f).len() == filter_distros(ds, f).len(),
    decreases ds.len(),
{
    let u = ds.update(i, d);
    if i == ds.len() - 1 {
        assert(u.drop_last() =~= ds.drop_last());
    } else {
        assert(u.drop_last() =~= ds.drop_last().update(i, d));
        lemma_filter_same_names(ds.drop_last(), i, d, f);
    }
}

/// What a key handler leaves alone or keeps sound: the distro list and the
/// disk-usage bookkeeping are untouched, the selection stays on a visible row,
/// a status message is either the one before or a fresh one, and no disk-usage
/// request is issued.
pub open spec fn key_frame(m: ModelView, r: Step) -> bool {
    &&& r.0.distros == m.distros
    &&& r.0.inner_disk_attempted == m.inner_disk_attempted
    &&& (r.0.status is Some ==> r.0.status_frames_left == status_ttl() || (r.0.status == m.status
        && r.0.status_frames_left == m.status_frames_left))
    &&& (selection_in_range(m) ==> selection_in_range(r.0))
    &&& forall|i: int| 0 <= i < r.1.len() ==> !(#[trigger] r.1[i] is SampleInnerDisk)
    &&& dialogs_sound(r.0)
}

proof fn lemma_frame_quit(m: ModelView, k: KeyPress)
    requires
        m.modal is None,
    ensures
        key_frame(m, quit_key_spec(m, k)),
{
}

proof fn lemma_frame_confirm(m: ModelView, c: ConfirmView, k: KeyPress)
    requires
        m.modal is None,
        forall|i: int| 0 <= i < c.on_confirm.len() ==> !(#[trigger] c.on_confirm[i] is SampleInnerDisk),
    ensures
        key_frame(m, confirm_key_spec(m, c, k)),
{
}

proof fn lemma_frame_import(m: ModelView, name: Seq<char>, tar: Seq<char>)
    requires
        m.modal is None,
    ensures
        key_frame(m, submit_import_spec(m, name, tar)),
{
}

proof fn lemma_frame_form(m: ModelView, f: super::modal::FormView, k: KeyPress)
    requires
        m.modal is None,
    ensures
        key_frame(m, form_key_spec(m, f, k)),
{
    if k.code == KeyCode::Enter {
        match f.kind {
            super::modal::FormKindView::Export { distro } => {},
            super::modal::FormKindView::ImportName { tar } => {
                lemma_frame_import(m, crate::text::trim(f.fields[0]), tar);
            },
            super::modal::FormKindView::ImportCustom => {
                lemma_frame_import(
                    m,
                    crate::text::trim(f.fields[1]),
                    crate::text::trim(f.fields[0]),
                );
            },
        }
    }
}

proof fn lemma_frame_progress(m: ModelView, p: super::modal::ProgressView, k: KeyPress)
    requires
        m.modal is None,
    ensures
        key_frame(m, progress_key_spec(m, p, k)),
{
}

proof fn lemma_frame_install(m: ModelView, p: super::modal::InstallPickView, k: KeyPress)
    requires
        m.modal is None,
    ensures
        key_frame(m, install_key_spec(m, p, k)),
{
}

proof fn lemma_frame_import_pick(m: ModelView, p: super::modal::ImportPickView, k: KeyPress)
    requires
        m.modal is None,
    ensures
        key_frame(m, import_pick_key_spec(m, p, k)),
{
}

proof fn lemma_frame_config(m: ModelView, c: super::config_edit::ConfigEditView, k: KeyPress)
    requires
        m.modal is None,
    ensures
        key_frame(m, config_key_spec(m, c, k)),
{
}

/// Dialogs the reducer opens never hold a disk-usage request.
pub open spec fn dialogs_sound(m: ModelView) -> bool {
    match m.modal {
        Some(ModalView::Confirm(c)) => forall|i: int|
            0 <= i < c.on_confirm.len() ==> !(#[trigger] c.on_confirm[i] is SampleInnerDisk),
        _ => true,
    }
}

proof fn lemma_frame_modal(m: ModelView, k: KeyPress)
    requires
        dialogs_sound(m),
    ensures
        key_frame(ModelView { modal: None, ..m }, modal_key_spec(m, k)),
{
    let m1 = ModelView { modal: None, ..m };
    match m.modal {
        Some(ModalView::Error(_)) => {},
        Some(ModalView::Confirm(c)) => lemma_frame_confirm(m1, c, k),
        Some(ModalView::Form(f)) => lemma_frame_form(m1, f, k),
        Some(ModalView::Progress(p)) => lemma_frame_progress(m1, p, k),
        Some(ModalView::InstallPick(p)) => lemma_frame_install(m1, p, k),
        Some(ModalView::ImportPick(p)) => lemma_frame_import_pick(m1, p, k),
        Some(ModalView::ConfigEdit(c)) => lemma_frame_config(m1, c, k),
        Some(ModalView::Help) => {},
        Some(ModalView::Quit) => lemma_frame_quit(m1, k),
        None => {},
    }
}

proof fn lemma_frame_filter(m: ModelView, k: KeyPress)
    requires
        m.modal is None,
    ensures
        key_frame(m, (filter_key_spec(m, k), seq![])),
{
}

#[verifier::rlimit(40)]
proof fn lemma_frame_list(m: ModelView, k: KeyPress)
    requires
        m.modal is None,
    ensures
        key_frame(m, list_key_spec(m, k)),
{
}

proof fn lemma_frame_key(m: ModelView, k: KeyPress)
    requires
        dialogs_sound(m),
    ensures
        key_frame(super::model::clear_status_spec(m), key_spec(m, k)),
{
    let m1 = super::model::clear_status_spec(m);
    if m1.modal is Some {
        lemma_frame_modal(m1, k);
        assert(ModelView { modal: None, ..m1 } == ModelView { modal: None, ..m1 });
    } else if m1.filter_mode {
        lemma_frame_filter(m1, k);
    } else {
        lemma_frame_list(m1, k);
    }
}

/// Every action keeps the selection on a visible row.
pub proof fn law_selection_stays_in_range(m: ModelView, a: ActionView)
    requires
        selection_in_range(m),
        dialogs_sound(m),
    ensures
        selection_in_range(update_spec(m, a).0),
{
    match a {
        ActionView::InnerDiskSampled { name, inner } => {
            match first_named(m.distros, name) {
                Some(i) => {
                    lemma_first_named_bounds(m.distros, name);
                    lemma_filter_same_names(
                        m.distros,
                        i,
                        Distro { inner_disk: inner, ..m.distros[i] },
                        m.filter,
                    );
                },
                None => {},
            }
        },
        ActionView::Event(Event::Key(k)) => {
            lemma_frame_key(m, k);
        },
        _ => {},
    }
}

proof fn lemma_first_named_bounds(ds: Seq<Distro>, name: Seq<char>)
    ensures
        match first_named(ds, name) {
            Some(i) => 0 <= i < ds.len(),
            None => true,
        },
    decreases ds.len(),
{
    if ds.len() > 0 {
        lemma_first_named_bounds(ds.drop_first(), name);
    }
}

/// A distro's in-distro disk usage is requested at most once: a request names
/// a distro not asked about before, and it is remembered.
pub proof fn law_inner_disk_requested_once(m: ModelView, a: ActionView, i: int, n: Seq<char>)
    requires
        dialogs_sound(m),
        0 <= i < update_spec(m, a).1.len(),
        update_spec(m, a).1[i] == CommandView::SampleInnerDisk(n),
    ensures
        !m.inner_disk_attempted.contains(n),
        update_spec(m, a).0.inner_disk_attempted.contains(n),
{
    match a {
        ActionView::Event(Event::Key(k)) => {
            lemma_frame_key(m, k);
            assert(!(key_spec(m, k).1[i] is SampleInnerDisk));
        },
        ActionView::Refreshed(ds) => {
            let m1 = clamp_spec(
                ModelView {
                    distros: ds.map_values(|d: Distro| carry_inner(d, m.distros)),
                    loaded: true,
                    last_error: None,
                    ..m
                },
            );
            let (m2, c1) = sample_inner_disk_spec(m1);
            let (m3, c2) = sample_vm_memory_spec(m2);
            assert(update_spec(m, a) == (m3, c1 + c2));
            assert(m1.inner_disk_attempted == m.inner_disk_attempted);
            assert(m3.inner_disk_attempted == m2.inner_disk_attempted);
            if i >= c1.len() {
                assert((c1 + c2)[i] == c2[i - c1.len()]);
                assert(!(c2[i - c1.len()] is SampleInnerDisk));
            } else {
                assert((c1 + c2)[i] == c1[i]);
                assert(c1.len() == 1);
                let last = m2.inner_disk_attempted.len() - 1;
                assert(m2.inner_disk_attempted[last] == n);
            }
        },
        _ => {},
    }
}

/// The remembered set of disk-usage requests only grows.
pub proof fn law_inner_disk_attempts_grow(m: ModelView, a: ActionView)
    requires
        dialogs_sound(m),
    ensures
        m.inner_disk_attempted.len() <= update_spec(m, a).0.inner_disk_attempted.len(),
        update_spec(m, a).0.inner_disk_attempted.take(m.inner_disk_attempted.len() as int)
            == m.inner_disk_attempted,
{
    match a {
        ActionView::Event(Event::Key(k)) => {
            lemma_frame_key(m, k);
        },
        ActionView::Refreshed(ds) => {
            let r = update_spec(m, a).0;
            assert(r.inner_disk_attempted.take(m.inner_disk_attempted.len() as int)
                =~= m.inner_disk_attempted);
        },
        _ => {
            assert(update_spec(m, a).0.inner_disk_attempted.take(
                m.inner_disk_attempted.len() as int,
            ) =~= m.inner_disk_attempted);
        },
    }
}

/// A background poll does not touch the status message.
pub proof fn law_tick_keeps_status(m: ModelView)
    ensures
        update_spec(m, ActionView::Event(Event::Tick)).0.status == m.status,
        update_spec(m, ActionView::Event(Event::Tick)).0.status_frames_left == m.status_frames_left,
{
}

/// After a key press, the old status message is gone: any status shown was set
/// by that key, with a full countdown.
pub proof fn law_key_status_is_fresh(m: ModelView, k: KeyPress)
    requires
        dialogs_sound(m),
    ensures
        update_spec(m, ActionView::Event(Event::Key(k))).0.status is Some ==> update_spec(
            m,
            ActionView::Event(Event::Key(k)),
        ).0.status_frames_left == status_ttl(),
{
    lemma_frame_key(m, k);
}

/// The model after `n` animation frames.
pub open spec fn after_frames(m: ModelView, n: nat) -> ModelView
    decreases n,
{
    if n == 0 {
        m
    } else {
        event_spec(after_frames(m, (n - 1) as nat), Event::Frame).0
    }
}

proof fn lemma_frames_countdown(m: ModelView, n: nat)
    requires
        m.status is Some,
        n < m.status_frames_left,
    ensures
        after_frames(m, n).status == m.status,
        after_frames(m, n).status_frames_left == m.status_frames_left - n,
    decreases n,
{
    if n > 0 {
        lemma_frames_countdown(m, (n - 1) as nat);
    }
}

/// A fresh status message stays up for exactly the countdown's frames: it is
/// still shown one frame before, and gone on the last frame.
pub proof fn law_status_expires_after_ttl(m: ModelView)
    requires
        m.status is Some,
        m.status_frames_left == status_ttl(),
    ensures
        after_frames(m, (status_ttl() - 1) as nat).status == m.status,
        after_frames(m, status_ttl()).status is None,
{
    lemma_frames_countdown(m, (status_ttl() - 1) as nat);
}

/// Dialogs the reducer opens never hold a disk-usage request, so the
/// soundness of the open dialog is kept by every action.
pub proof fn law_dialogs_stay_sound(m: ModelView, a: ActionView)
    requires
        dialogs_sound(m),
    ensures
        dialogs_sound(update_spec(m, a).0),
{
    match a {
        ActionView::Event(Event::Key(k)) => lemma_frame_key(m, k),
        _ => {},
    }
}

/// Once the VM's total memory has been read (or a read is in flight), a
/// refresh with the VM up does not ask again.
pub proof fn law_vm_memory_read_once(m: ModelView, ds: Seq<Distro>, i: int)
    requires
        m.vm_mem_attempted,
        0 <= i < update_spec(m, ActionView::Refreshed(ds)).1.len(),
    ensures
        !(update_spec(m, ActionView::Refreshed(ds)).1[i] is SampleVmMemory),
{
    let m1 = clamp_spec(
        ModelView {
            distros: ds.map_values(|d: Distro| carry_inner(d, m.distros)),
            loaded: true,
            last_error: None,
            ..m
        },
    );
    let (m2, c1) = sample_inner_disk_spec(m1);
    let (m3, c2) = sample_vm_memory_spec(m2);
    if i >= c1.len() {
        assert((c1 + c2)[i] == c2[i - c1.len()]);
    } else {
        assert((c1 + c2)[i] == c1[i]);
    }
}

/// After an unsuccessful VM memory read, the next refresh asks again.
pub proof fn law_vm_memory_retried_after_failure(m: ModelView)
    ensures
        !update_spec(m, ActionView::VmMemorySampled(None)).0.vm_mem_attempted,
        update_spec(m, ActionView::VmMemorySampled(None)).0.vm_mem_total is None,
{
}

proof fn lemma_first_running_in_range(ds: Seq<Distro>)
    ensures
        first_running(ds) matches Some(i) ==> 0 <= i < ds.len(),
    decreases ds.len(),
{
    if ds.len() > 0 {
        lemma_first_running_in_range(ds.drop_first());
    }
}

proof fn lemma_first_running_carried(ds: Seq<Distro>, old: Seq<Distro>)
    ensures
        first_running(ds.map_values(|d: Distro| carry_inner(d, old))) == first_running(ds),
    decreases ds.len(),
{
    let mapped = ds.map_values(|d: Distro| carry_inner(d, old));
    if ds.len() > 0 {
        assert(mapped.drop_first() =~= ds.drop_first().map_values(|d: Distro| carry_inner(d, old)));
        lemma_first_running_carried(ds.drop_first(), old);
        assert(mapped[0] == carry_inner(ds[0], old));
    }
}

/// With the VM up, a refresh after a VM memory reading asks for the reading
/// again exactly when that reading failed: a failed read is retried, a
/// successful one is not repeated.
pub proof fn law_vm_memory_sample_follows_last_read(m: ModelView, v: Option<u64>, ds: Seq<Distro>)
    requires
        first_running(ds) is Some,
    ensures
        update_spec(update_spec(m, ActionView::VmMemorySampled(v)).0, ActionView::Refreshed(ds)).1.contains(
            CommandView::SampleVmMemory(ds[first_running(ds)->0].name@),
        ) <==> v is None,
{
    let m0 = update_spec(m, ActionView::VmMemorySampled(v)).0;
    let m1 = clamp_spec(
        ModelView {
            distros: ds.map_values(|d: Distro| carry_inner(d, m0.distros)),
            loaded: true,
            last_error: None,
            ..m0
        },
    );
    lemma_first_running_carried(ds, m0.distros);
    lemma_first_running_in_range(ds);
    let i = first_running(ds)->0;
    let target = CommandView::SampleVmMemory(ds[i].name@);
    let (m2, c1) = sample_inner_disk_spec(m1);
    let (m3, c2) = sample_vm_memory_spec(m2);
    assert(m2.distros == m1.distros);
    assert(m1.distros[i] == carry_inner(ds[i], m0.distros));
    let cs = c1 + c2;
    assert(!c1.contains(target)) by {
        if c1.contains(target) {
            let j = choose|j: int| 0 <= j < c1.len() && c1[j] == target;
            assert(c1[j] is SampleInnerDisk);
        }
    }
    if v is None {
        assert(cs[c1.len() as int] == target);
    } else {
        assert(c2.len() == 0);
        assert(cs =~= c1);
    }
}

/// With the distro list showing and no filter being typed, `Down`/`Up` move
/// the selection only when the arrow keys are on, and `j`/`k` only when the
/// vim keys are on; no command is issued.
pub proof fn law_navigation_follows_keybind_style(m: ModelView, k: KeyPress)
    requires
        m.modal is None,
        !m.filter_mode,
        k.code == KeyCode::Down || k.code == KeyCode::Char('j') || k.code == KeyCode::Up
            || k.code == KeyCode::Char('k'),
    ensures
        update_spec(m, ActionView::Event(Event::Key(k))).1.len() == 0,
        update_spec(m, ActionView::Event(Event::Key(k))).0.selected == if (k.code == KeyCode::Down
            && !(m.keybind_style is VimOnly)) || (k.code == KeyCode::Char('j')
            && !(m.keybind_style is ArrowsOnly)) {
            select_down(m.selected, visible(m).len())
        } else if (k.code == KeyCode::Up && !(m.keybind_style is VimOnly)) || (k.code
            == KeyCode::Char('k') && !(m.keybind_style is ArrowsOnly)) {
            select_up(m.selected)
        } else {
            m.selected
        },
{
}

/// Pressing `Enter` in a dialog guarded by a typed name issues the dialog's
/// commands (and opens its progress dialog) when the typed text matches, and
/// otherwise keeps the dialog open with what was typed and issues nothing.
pub proof fn law_typed_confirm_enter(m: ModelView, c: ConfirmView, k: KeyPress)
    requires
        m.modal == Some(ModalView::Confirm(c)),
        c.require_typed is Some,
        k.code == KeyCode::Enter,
    ensures
        c.require_typed->0.input == c.require_typed->0.expected ==> {
            &&& update_spec(m, ActionView::Event(Event::Key(k))).1 == c.on_confirm
            &&& update_spec(m, ActionView::Event(Event::Key(k))).0.modal == match c.progress_title {
                Some(title) => Some(ModalView::Progress(ProgressView { title, frame: 0 })),
                None => None,
            }
        },
        c.require_typed->0.input != c.require_typed->0.expected ==> {
            &&& update_spec(m, ActionView::Event(Event::Key(k))).1.len() == 0
            &&& update_spec(m, ActionView::Event(Event::Key(k))).0.modal == Some(
                ModalView::Confirm(c),
            )
        },
{
}

/// `d` in the archive picker asks to delete the selected archive, naming it,
/// and issues nothing yet; with nothing selected the picker stays as it was.
pub proof fn law_picker_delete_asks_first(m: ModelView, p: ImportPickView, k: KeyPress)
    requires
        m.modal == Some(ModalView::ImportPick(p)),
        k.code == KeyCode::Char('d'),
    ensures
        update_spec(m, ActionView::Event(Event::Key(k))).1.len() == 0,
        update_spec(m, ActionView::Event(Event::Key(k))).0.modal == if p.selected
            < p.entries.len() {
            Some(
                ModalView::Confirm(
                    plain_confirm(
                        tf_spec(
                            m.lang,
                            Key::PromptDeleteArchive,
                            seq![p.entries[p.selected as int].name@],
                        ),
                        CommandView::DeleteExport(p.entries[p.selected as int].path@),
                    ),
                ),
            )
        } else {
            Some(ModalView::ImportPick(p))
        },
{
}

/// `Ctrl+S` in the configuration editor closes it, shows that the file is
/// being saved, and issues exactly one save of what the active view holds.
pub proof fn law_ctrl_s_saves_config(m: ModelView, s: ConfigEditView, k: KeyPress)
    requires
        m.modal == Some(ModalView::ConfigEdit(s)),
        k.code == KeyCode::Char('s'),
        mods_contain(k.modifiers, KeyMods { ctrl: true, shift: false }),
    ensures
        update_spec(m, ActionView::Event(Event::Key(k))).1 == seq![
            CommandView::SaveConfig { target: s.target, content: config_rendered(s) },
        ],
        update_spec(m, ActionView::Event(Event::Key(k))).0.modal is None,
        update_spec(m, ActionView::Event(Event::Key(k))).0.status == Some(
            tf_spec(m.lang, Key::StatusSaving, seq![target_label(s.target)]),
        ),
{
}

/// `L` in the distro list switches to the other language and saves the
/// preferences; pressing it again brings the first language back.
pub proof fn law_l_toggles_language(m: ModelView, k: KeyPress)
    requires
        m.modal is None,
        !m.filter_mode,
        k.code == KeyCode::Char('L'),
    ensures
        update_spec(m, ActionView::Event(Event::Key(k))).0.lang != m.lang,
        update_spec(m, ActionView::Event(Event::Key(k))).1 == seq![CommandView::SavePrefs],
        update_spec(
            update_spec(m, ActionView::Event(Event::Key(k))).0,
            ActionView::Event(Event::Key(k)),
        ).0.lang == m.lang,
{
    let m1 = update_spec(m, ActionView::Event(Event::Key(k))).0;
    assert(m1.modal is None && !m1.filter_mode);
}

} // verus!
