//! The pure update reducer: `(Model, Action) -> Vec<Command>`. Terminal- and
//! I/O-free; side effects are described by the returned [`Command`]s, which
//! the application shell executes.
//!
//! Each handler is specified by a spec function from the abstract model (and
//! the input) to the next abstract model and the commands it issues.
use vstd::prelude::*;

use super::config_edit::{config_edit_new, ConfigEditState};
use super::input::{mods_contain, KeyCode, KeyMods, KeyPress};
use super::message::{
    cmd_views, tf0, tf1, Action, ActionView, Command, CommandView, Event, LifecycleOp,
    LifecycleView,
};
use super::modal::{
    export_form, Confirm, ConfirmView, FormState, ImportPickState, ImportPickView,
    InstallPickState, InstallPickView, Modal, ModalView, ProgressView, TypedConfirm, TypedView,
};
use super::model::{
    clamp_spec, clear_status_spec, model_wf, selected_distro_spec, set_status_spec,
    tick_status_spec, visible, Model, ModelView,
};
use crate::config::{target_label, ConfigTarget};
use crate::i18n::{t, text, tf_spec, Key};
use crate::metrics::push_spec;
use crate::prefs::ShellLaunch;
use crate::wsl::{Distro, DistroState};

pub mod modal;

pub use modal::{handle_modal_key, modal_key_spec, no_cmds, one_cmd};

verus! {

/// The result of a handler: the next model and the commands to run.
pub type Step = (ModelView, Seq<CommandView>);

// ---------------------------------------------------------------------------
// Specification
// ---------------------------------------------------------------------------
/// The name of the selected distro, if any.
pub open spec fn selected_name_spec(m: ModelView) -> Option<Seq<char>> {
    match selected_distro_spec(m) {
        Some(d) => Some(d.name@),
        None => None,
    }
}

/// The model with `modal` open.
pub open spec fn with_modal(m: ModelView, modal: ModalView) -> ModelView {
    ModelView { modal: Some(modal), ..m }
}

/// A confirmation dialog with no typed guard, progress title or status.
pub open spec fn plain_confirm(prompt: Seq<char>, cmd: CommandView) -> ConfirmView {
    ConfirmView {
        prompt,
        require_typed: None,
        on_confirm: seq![cmd],
        progress_title: None,
        status: None,
    }
}

/// `s`: start the selected distro right away.
pub open spec fn start_spec(m: ModelView) -> Step {
    match selected_name_spec(m) {
        Some(n) => (
            set_status_spec(m, tf_spec(m.lang, Key::StatusStarting, seq![n])),
            seq![CommandView::Lifecycle(LifecycleView::Start(n))],
        ),
        None => (m, seq![]),
    }
}

/// `d`: make the selected distro the default right away.
pub open spec fn set_default_spec(m: ModelView) -> Step {
    match selected_name_spec(m) {
        Some(n) => (
            set_status_spec(m, tf_spec(m.lang, Key::StatusSettingDefault, seq![n])),
            seq![CommandView::Lifecycle(LifecycleView::SetDefault(n))],
        ),
        None => (m, seq![]),
    }
}

/// Open a shell on the selected distro in the given mode.
pub open spec fn launch_spec(m: ModelView, mode: ShellLaunch) -> Step {
    match selected_name_spec(m) {
        Some(n) => match mode {
            ShellLaunch::Inline => (
                set_status_spec(m, tf_spec(m.lang, Key::StatusLaunchingShell, seq![n])),
                seq![CommandView::LaunchInlineShell(n)],
            ),
            ShellLaunch::NewTab => (m, seq![CommandView::LaunchTabShell(n)]),
        },
        None => (m, seq![]),
    }
}

/// `x`: ask before terminating the selected distro.
pub open spec fn confirm_terminate_spec(m: ModelView) -> ModelView {
    match selected_name_spec(m) {
        Some(n) => with_modal(
            m,
            ModalView::Confirm(
                plain_confirm(
                    tf_spec(m.lang, Key::PromptTerminate, seq![n]),
                    CommandView::Lifecycle(LifecycleView::Terminate(n)),
                ),
            ),
        ),
        None => m,
    }
}

/// `X`: ask before shutting down the whole VM.
pub open spec fn confirm_shutdown_spec(m: ModelView) -> ModelView {
    with_modal(
        m,
        ModalView::Confirm(
            plain_confirm(
                tf_spec(m.lang, Key::PromptShutdown, seq![]),
                CommandView::Lifecycle(LifecycleView::Shutdown),
            ),
        ),
    )
}

/// `u`: ask for the distro's name before unregistering it.
pub open spec fn confirm_unregister_spec(m: ModelView) -> ModelView {
    match selected_name_spec(m) {
        Some(n) => with_modal(
            m,
            ModalView::Confirm(
                ConfirmView {
                    prompt: tf_spec(m.lang, Key::PromptUnregister, seq![n]),
                    require_typed: Some(TypedView { expected: n, input: seq![] }),
                    on_confirm: seq![CommandView::Lifecycle(LifecycleView::Unregister(n))],
                    progress_title: None,
                    status: None,
                },
            ),
        ),
        None => m,
    }
}

/// Ask to load a configuration file for editing.
pub open spec fn load_config_spec(m: ModelView, target: ConfigTarget) -> Step {
    (
        set_status_spec(m, tf_spec(m.lang, Key::StatusLoading, seq![target_label(target)])),
        seq![CommandView::LoadConfig(target)],
    )
}

/// `C`: load the selected distro's `wsl.conf`.
pub open spec fn load_wslconf_spec(m: ModelView) -> Step {
    match selected_distro_spec(m) {
        Some(d) => load_config_spec(m, ConfigTarget::WslConf(d.name)),
        None => (m, seq![]),
    }
}

/// A key in the main list (no modal, not typing a filter).
pub open spec fn list_key_spec(m: ModelView, k: KeyPress) -> Step {
    let c = k.code;
    if c == KeyCode::Char('q') {
        (with_modal(m, ModalView::Quit), seq![])
    } else if c == KeyCode::Char('c') && k.modifiers == (KeyMods { ctrl: true, shift: false }) {
        (with_modal(m, ModalView::Quit), seq![])
    } else if c == KeyCode::Esc {
        if m.filter.len() == 0 {
            (with_modal(m, ModalView::Quit), seq![])
        } else {
            (ModelView { filter: seq![], selected: 0, ..m }, seq![])
        }
    } else if c == KeyCode::Char('/') {
        (ModelView { filter_mode: true, ..m }, seq![])
    } else if c == KeyCode::Char('?') {
        (with_modal(m, ModalView::Help), seq![])
    } else if (c == KeyCode::Down && !(m.keybind_style is VimOnly)) || (c == KeyCode::Char('j')
        && !(m.keybind_style is ArrowsOnly)) {
        (
            ModelView {
                selected: super::modal::select_down(m.selected, visible(m).len()),
                ..m
            },
            seq![],
        )
    } else if (c == KeyCode::Up && !(m.keybind_style is VimOnly)) || (c == KeyCode::Char('k')
        && !(m.keybind_style is ArrowsOnly)) {
        (ModelView { selected: super::modal::select_up(m.selected), ..m }, seq![])
    } else if c == KeyCode::Enter {
        if mods_contain(k.modifiers, KeyMods { ctrl: false, shift: true }) {
            launch_spec(
                m,
                match m.default_shell_launch {
                    ShellLaunch::Inline => ShellLaunch::NewTab,
                    ShellLaunch::NewTab => ShellLaunch::Inline,
                },
            )
        } else {
            launch_spec(m, m.default_shell_launch)
        }
    } else if c == KeyCode::Char('w') {
        launch_spec(m, ShellLaunch::NewTab)
    } else if c == KeyCode::Char('r') {
        (m, seq![CommandView::RefreshList])
    } else if c == KeyCode::Char('s') {
        start_spec(m)
    } else if c == KeyCode::Char('d') {
        set_default_spec(m)
    } else if c == KeyCode::Char('x') {
        (confirm_terminate_spec(m), seq![])
    } else if c == KeyCode::Char('X') {
        (confirm_shutdown_spec(m), seq![])
    } else if c == KeyCode::Char('u') {
        (confirm_unregister_spec(m), seq![])
    } else if c == KeyCode::Char('e') {
        match selected_name_spec(m) {
            Some(n) => (m, seq![CommandView::OpenExportDialog { distro: n }]),
            None => (m, seq![]),
        }
    } else if c == KeyCode::Char('m') {
        (m, seq![CommandView::ListExports])
    } else if c == KeyCode::Char('i') {
        (set_status_spec(m, text(m.lang, Key::StatusFetching)), seq![CommandView::ListOnline])
    } else if c == KeyCode::Char('c') {
        load_config_spec(m, ConfigTarget::WslConfig)
    } else if c == KeyCode::Char('C') {
        load_wslconf_spec(m)
    } else if c == KeyCode::Char('L') {
        (
            ModelView {
                lang: match m.lang {
                    crate::i18n::Lang::En => crate::i18n::Lang::Ja,
                    crate::i18n::Lang::Ja => crate::i18n::Lang::En,
                },
                ..m
            },
            seq![CommandView::SavePrefs],
        )
    } else {
        (m, seq![])
    }
}

/// A key while typing into the list filter.
pub open spec fn filter_key_spec(m: ModelView, k: KeyPress) -> ModelView {
    match k.code {
        KeyCode::Esc => ModelView { filter: seq![], filter_mode: false, selected: 0, ..m },
        KeyCode::Enter => ModelView { filter_mode: false, ..m },
        KeyCode::Char(c) => ModelView { filter: m.filter.push(c), selected: 0, ..m },
        KeyCode::Backspace => ModelView {
            filter: super::modal::pop_last(m.filter),
            selected: 0,
            ..m
        },
        _ => m,
    }
}

/// A key press: it dismisses the status message, then goes to the open modal,
/// the filter being typed, or the list.
pub open spec fn key_spec(m0: ModelView, k: KeyPress) -> Step {
    let m = clear_status_spec(m0);
    if m.modal is Some {
        modal_key_spec(m, k)
    } else if m.filter_mode {
        (filter_key_spec(m, k), seq![])
    } else {
        list_key_spec(m, k)
    }
}

/// An input event.
pub open spec fn event_spec(m: ModelView, e: Event) -> Step {
    match e {
        Event::Key(k) => key_spec(m, k),
        Event::Tick => (
            ModelView { ticks: m.ticks.wrapping_add(1), ..m },
            seq![CommandView::RefreshList, CommandView::SampleMetrics],
        ),
        Event::Frame => {
            let m1 = match m.modal {
                Some(ModalView::Progress(p)) => with_modal(
                    m,
                    ModalView::Progress(ProgressView { frame: p.frame.wrapping_add(1), ..p }),
                ),
                _ => m,
            };
            (tick_status_spec(m1), seq![])
        },
        Event::Resize(_, _) => (m, seq![]),
    }
}

/// Index of the first distro named `name`, if any.
pub open spec fn first_named(ds: Seq<Distro>, name: Seq<char>) -> Option<int>
    decreases ds.len(),
{
    if ds.len() == 0 {
        None
    } else if ds[0].name@ == name {
        Some(0)
    } else {
        match first_named(ds.drop_first(), name) {
            Some(i) => Some(i + 1),
            None => None,
        }
    }
}

/// A refreshed distro keeps the in-distro disk usage already fetched for the
/// distro of the same name.
pub open spec fn carry_inner(d: Distro, old: Seq<Distro>) -> Distro {
    if d.inner_disk is None {
        match first_named(old, d.name@) {
            Some(i) => Distro { inner_disk: old[i].inner_disk, ..d },
            None => d,
        }
    } else {
        d
    }
}

/// Request the selected distro's in-distro disk usage once, when it runs.
pub open spec fn sample_inner_disk_spec(m: ModelView) -> Step {
    match selected_distro_spec(m) {
        Some(d) => if d.state == DistroState::Running && !m.inner_disk_attempted.contains(
            d.name@,
        ) {
            (
                ModelView { inner_disk_attempted: m.inner_disk_attempted.push(d.name@), ..m },
                seq![CommandView::SampleInnerDisk(d.name@)],
            )
        } else {
            (m, seq![])
        },
        None => (m, seq![]),
    }
}

/// Index of the first running distro, if any.
pub open spec fn first_running(ds: Seq<Distro>) -> Option<int>
    decreases ds.len(),
{
    if ds.len() == 0 {
        None
    } else if ds[0].state == DistroState::Running {
        Some(0)
    } else {
        match first_running(ds.drop_first()) {
            Some(i) => Some(i + 1),
            None => None,
        }
    }
}

/// Request the VM's total memory while the VM is up and it is not yet known;
/// forget it while the VM is down.
pub open spec fn sample_vm_memory_spec(m: ModelView) -> Step {
    match first_running(m.distros) {
        Some(i) => if m.vm_mem_attempted {
            (m, seq![])
        } else {
            (
                ModelView { vm_mem_attempted: true, ..m },
                seq![CommandView::SampleVmMemory(m.distros[i].name@)],
            )
        },
        None => (ModelView { vm_mem_attempted: false, vm_mem_total: None, ..m }, seq![]),
    }
}

/// A fresh distro list arrived.
pub open spec fn refreshed_spec(m: ModelView, ds: Seq<Distro>) -> Step {
    let m1 = clamp_spec(
        ModelView {
            distros: ds.map_values(|d: Distro| carry_inner(d, m.distros)),
            loaded: true,
            last_error: None,
            ..m
        },
    );
    let (m2, c1) = sample_inner_disk_spec(m1);
    let (m3, c2) = sample_vm_memory_spec(m2);
    (m3, c1 + c2)
}

/// The reducer: the next model and the commands for an action.
pub open spec fn update_spec(m: ModelView, a: ActionView) -> Step {
    match a {
        ActionView::Quit => (ModelView { should_quit: true, ..m }, seq![]),
        ActionView::Refreshed(ds) => refreshed_spec(m, ds),
        ActionView::RefreshFailed(msg) => (
            ModelView { loaded: true, last_error: Some(msg), ..m },
            seq![],
        ),
        ActionView::MetricsSampled(s) => (ModelView { metrics: push_spec(m.metrics, s), ..m }, seq![]),
        ActionView::InnerDiskSampled { name, inner } => (
            match first_named(m.distros, name) {
                Some(i) => ModelView {
                    distros: m.distros.update(i, Distro { inner_disk: inner, ..m.distros[i] }),
                    ..m
                },
                None => m,
            },
            seq![],
        ),
        ActionView::VmMemorySampled(total) => (
            ModelView { vm_mem_total: total, vm_mem_attempted: total is Some, ..m },
            seq![],
        ),
        ActionView::OnlineList(items) => (
            with_modal(
                m,
                ModalView::InstallPick(InstallPickView { items, filter: seq![], selected: 0 }),
            ),
            seq![],
        ),
        ActionView::ExportDialogReady { distro, filename } => (
            with_modal(m, ModalView::Form(export_form(distro, filename))),
            seq![],
        ),
        ActionView::ExportsListed(entries) => (
            with_modal(m, ModalView::ImportPick(ImportPickView { entries, selected: 0 })),
            seq![],
        ),
        ActionView::ConfigLoaded { target, content } => (
            with_modal(m, ModalView::ConfigEdit(config_edit_new(target, content))),
            seq![],
        ),
        ActionView::OpDone(msg) => (
            set_status_spec(
                ModelView {
                    modal: match m.modal {
                        Some(ModalView::Progress(_)) => None,
                        _ => m.modal,
                    },
                    ..m
                },
                msg,
            ),
            seq![CommandView::RefreshList],
        ),
        ActionView::OpFailed(msg) => (with_modal(m, ModalView::Error(msg)), seq![]),
        ActionView::Event(e) => event_spec(m, e),
    }
}

// ---------------------------------------------------------------------------
// Handlers
// ---------------------------------------------------------------------------
/// Advance the model in response to an action, returning any side effects.
pub fn update(model: &mut Model, action: Action) -> (r: Vec<Command>)
    requires
        model_wf(old(model)@),
    ensures
        final(model)@ == update_spec(old(model)@, action@).0,
        cmd_views(r@) == update_spec(old(model)@, action@).1,
        model_wf(final(model)@),
{
    match action {
        Action::Quit => {
            model.should_quit = true;
            no_cmds()
        },
        Action::Refreshed(distros) => refreshed(model, distros),
        Action::RefreshFailed(message) => {
            model.loaded = true;
            model.last_error = Some(message);
            no_cmds()
        },
        Action::MetricsSampled(sample) => {
            model.metrics.push(&sample);
            no_cmds()
        },
        Action::InnerDiskSampled { name, inner } => {
            match find_named(&model.distros, name.as_str()) {
                Some(i) => {
                    let mut d = model.distros[i].clone();
                    d.inner_disk = inner;
                    model.distros.set(i, d);
                },
                None => {},
            }
            no_cmds()
        },
        Action::VmMemorySampled(total) => {
            model.vm_mem_total = total;
            model.vm_mem_attempted = total.is_some();
            no_cmds()
        },
        Action::OnlineList(items) => {
            model.modal = Some(Modal::InstallPick(InstallPickState::new(items)));
            no_cmds()
        },
        Action::ExportDialogReady { distro, filename } => {
            model.modal = Some(Modal::Form(FormState::export(distro, filename)));
            no_cmds()
        },
        Action::ExportsListed(entries) => {
            model.modal = Some(Modal::ImportPick(ImportPickState::new(entries)));
            no_cmds()
        },
        Action::ConfigLoaded { target, content } => {
            model.modal = Some(Modal::ConfigEdit(ConfigEditState::new(target, content.as_str())));
            no_cmds()
        },
        Action::OpDone(message) => {
            if matches!(model.modal, Some(Modal::Progress(_))) {
                model.modal = None;
            }
            model.set_status(message);
            one_cmd(Command::RefreshList)
        },
        Action::OpFailed(message) => {
            model.modal = Some(Modal::Error { message });
            no_cmds()
        },
        Action::Event(event) => update_event(model, event),
    }
}

fn update_event(model: &mut Model, event: Event) -> (r: Vec<Command>)
    requires
        model_wf(old(model)@),
    ensures
        final(model)@ == event_spec(old(model)@, event).0,
        cmd_views(r@) == event_spec(old(model)@, event).1,
        model_wf(final(model)@),
{
    match event {
        Event::Key(key) => handle_key(model, key),
        Event::Tick => {
            model.ticks = model.ticks.wrapping_add(1);
            let mut r: Vec<Command> = Vec::new();
            r.push(Command::RefreshList);
            r.push(Command::SampleMetrics);
            assert(cmd_views(r@) =~= seq![CommandView::RefreshList, CommandView::SampleMetrics]);
            r
        },
        Event::Frame => {
            let taken = model.modal.take();
            match taken {
                Some(Modal::Progress(mut progress)) => {
                    progress.tick();
                    model.modal = Some(Modal::Progress(progress));
                },
                other => {
                    model.modal = other;
                },
            }
            model.tick_status();
            no_cmds()
        },
        Event::Resize(_, _) => no_cmds(),
    }
}

fn handle_key(model: &mut Model, key: KeyPress) -> (r: Vec<Command>)
    requires
        model_wf(old(model)@),
    ensures
        final(model)@ == key_spec(old(model)@, key).0,
        cmd_views(r@) == key_spec(old(model)@, key).1,
        model_wf(final(model)@),
{
    model.clear_status();
    if model.modal.is_some() {
        handle_modal_key(model, key)
    } else if model.filter_mode {
        handle_filter_key(model, key);
        no_cmds()
    } else {
        handle_list_key(model, key)
    }
}

fn handle_filter_key(model: &mut Model, key: KeyPress)
    ensures
        final(model)@ == filter_key_spec(old(model)@, key),
{
    match key.code {
        KeyCode::Esc => {
            model.filter = String::new();
            model.filter_mode = false;
            model.selected = 0;
        },
        KeyCode::Enter => {
            model.filter_mode = false;
        },
        KeyCode::Char(c) => {
            model.filter.push(c);
            model.selected = 0;
        },
        KeyCode::Backspace => {
            model.filter.pop();
            model.selected = 0;
        },
        _ => {},
    }
}

fn handle_list_key(model: &mut Model, key: KeyPress) -> (r: Vec<Command>)
    requires
        model_wf(old(model)@),
        old(model).modal is None,
    ensures
        final(model)@ == list_key_spec(old(model)@, key).0,
        cmd_views(r@) == list_key_spec(old(model)@, key).1,
        model_wf(final(model)@),
{
    let c = key.code;
    let arrows = model.keybind_style.arrows_enabled();
    let vim = model.keybind_style.vim_enabled();
    if c == KeyCode::Char('q') {
        model.modal = Some(Modal::Quit);
        no_cmds()
    } else if c == KeyCode::Char('c') && key.modifiers == KeyMods::control() {
        model.modal = Some(Modal::Quit);
        no_cmds()
    } else if c == KeyCode::Esc {
        if model.filter.as_str().is_empty() {
            model.modal = Some(Modal::Quit);
        } else {
            model.filter = String::new();
            model.selected = 0;
        }
        no_cmds()
    } else if c == KeyCode::Char('/') {
        model.filter_mode = true;
        no_cmds()
    } else if c == KeyCode::Char('?') {
        model.modal = Some(Modal::Help);
        no_cmds()
    } else if (c == KeyCode::Down && arrows) || (c == KeyCode::Char('j') && vim) {
        model.select_next();
        no_cmds()
    } else if (c == KeyCode::Up && arrows) || (c == KeyCode::Char('k') && vim) {
        model.select_prev();
        no_cmds()
    } else if c == KeyCode::Enter {
        if key.modifiers.contains(KeyMods::shift()) {
            let mode = model.default_shell_launch.other();
            launch_shell(model, mode)
        } else {
            let mode = model.default_shell_launch;
            launch_shell(model, mode)
        }
    } else if c == KeyCode::Char('w') {
        launch_shell(model, ShellLaunch::NewTab)
    } else if c == KeyCode::Char('r') {
        one_cmd(Command::RefreshList)
    } else if c == KeyCode::Char('s') {
        start_selected(model)
    } else if c == KeyCode::Char('d') {
        set_default_selected(model)
    } else if c == KeyCode::Char('x') {
        open_confirm_terminate(model);
        no_cmds()
    } else if c == KeyCode::Char('X') {
        open_confirm_shutdown(model);
        no_cmds()
    } else if c == KeyCode::Char('u') {
        open_confirm_unregister(model);
        no_cmds()
    } else if c == KeyCode::Char('e') {
        open_export(model)
    } else if c == KeyCode::Char('m') {
        one_cmd(Command::ListExports)
    } else if c == KeyCode::Char('i') {
        let msg = t(model.lang, Key::StatusFetching).to_owned();
        model.set_status(msg);
        one_cmd(Command::ListOnline)
    } else if c == KeyCode::Char('c') {
        load_config(model, ConfigTarget::WslConfig)
    } else if c == KeyCode::Char('C') {
        load_wslconf(model)
    } else if c == KeyCode::Char('L') {
        model.lang = model.lang.toggled();
        one_cmd(Command::SavePrefs)
    } else {
        no_cmds()
    }
}

/// The name of the selected distro, if any.
fn selected_name(model: &Model) -> (r: Option<String>)
    ensures
        r == match selected_distro_spec(model@) {
            Some(d) => Some(d.name),
            None => None,
        },
{
    match model.selected_distro() {
        Some(d) => Some(d.name.clone()),
        None => None,
    }
}

fn open_export(model: &mut Model) -> (r: Vec<Command>)
    ensures
        final(model)@ == old(model)@,
        cmd_views(r@) == match selected_name_spec(old(model)@) {
            Some(n) => seq![CommandView::OpenExportDialog { distro: n }],
            None => seq![],
        },
{
    match selected_name(model) {
        Some(distro) => one_cmd(Command::OpenExportDialog { distro }),
        None => no_cmds(),
    }
}

fn load_config(model: &mut Model, target: ConfigTarget) -> (r: Vec<Command>)
    ensures
        final(model)@ == load_config_spec(old(model)@, target).0,
        cmd_views(r@) == load_config_spec(old(model)@, target).1,
{
    let label = target.label();
    model.set_status(tf1(model.lang, Key::StatusLoading, label.as_str()));
    one_cmd(Command::LoadConfig(target))
}

fn load_wslconf(model: &mut Model) -> (r: Vec<Command>)
    ensures
        final(model)@ == load_wslconf_spec(old(model)@).0,
        cmd_views(r@) == load_wslconf_spec(old(model)@).1,
{
    match selected_name(model) {
        Some(name) => load_config(model, ConfigTarget::WslConf(name)),
        None => no_cmds(),
    }
}

fn start_selected(model: &mut Model) -> (r: Vec<Command>)
    ensures
        final(model)@ == start_spec(old(model)@).0,
        cmd_views(r@) == start_spec(old(model)@).1,
{
    match selected_name(model) {
        Some(name) => {
            model.set_status(tf1(model.lang, Key::StatusStarting, name.as_str()));
            one_cmd(Command::Lifecycle(LifecycleOp::Start(name)))
        },
        None => no_cmds(),
    }
}

fn set_default_selected(model: &mut Model) -> (r: Vec<Command>)
    ensures
        final(model)@ == set_default_spec(old(model)@).0,
        cmd_views(r@) == set_default_spec(old(model)@).1,
{
    match selected_name(model) {
        Some(name) => {
            model.set_status(tf1(model.lang, Key::StatusSettingDefault, name.as_str()));
            one_cmd(Command::Lifecycle(LifecycleOp::SetDefault(name)))
        },
        None => no_cmds(),
    }
}

fn launch_shell(model: &mut Model, mode: ShellLaunch) -> (r: Vec<Command>)
    ensures
        final(model)@ == launch_spec(old(model)@, mode).0,
        cmd_views(r@) == launch_spec(old(model)@, mode).1,
{
    match selected_name(model) {
        Some(name) => match mode {
            ShellLaunch::Inline => {
                model.set_status(tf1(model.lang, Key::StatusLaunchingShell, name.as_str()));
                one_cmd(Command::LaunchInlineShell(name))
            },
            ShellLaunch::NewTab => one_cmd(Command::LaunchTabShell(name)),
        },
        None => no_cmds(),
    }
}

fn open_confirm_terminate(model: &mut Model)
    ensures
        final(model)@ == confirm_terminate_spec(old(model)@),
{
    match selected_name(model) {
        Some(name) => {
            let prompt = tf1(model.lang, Key::PromptTerminate, name.as_str());
            let on_confirm = one_cmd(Command::Lifecycle(LifecycleOp::Terminate(name)));
            model.modal = Some(
                Modal::Confirm(
                    Confirm {
                        prompt,
                        require_typed: None,
                        on_confirm,
                        progress_title: None,
                        status: None,
                    },
                ),
            );
        },
        None => {},
    }
}

fn open_confirm_shutdown(model: &mut Model)
    ensures
        final(model)@ == confirm_shutdown_spec(old(model)@),
{
    let prompt = tf0(model.lang, Key::PromptShutdown);
    let on_confirm = one_cmd(Command::Lifecycle(LifecycleOp::Shutdown));
    model.modal = Some(
        Modal::Confirm(
            Confirm { prompt, require_typed: None, on_confirm, progress_title: None, status: None },
        ),
    );
}

fn open_confirm_unregister(model: &mut Model)
    ensures
        final(model)@ == confirm_unregister_spec(old(model)@),
{
    match selected_name(model) {
        Some(name) => {
            let prompt = tf1(model.lang, Key::PromptUnregister, name.as_str());
            let expected = name.clone();
            let on_confirm = one_cmd(Command::Lifecycle(LifecycleOp::Unregister(name)));
            model.modal = Some(
                Modal::Confirm(
                    Confirm {
                        prompt,
                        require_typed: Some(TypedConfirm { expected, input: String::new() }),
                        on_confirm,
                        progress_title: None,
                        status: None,
                    },
                ),
            );
        },
        None => {},
    }
}

proof fn lemma_first_named(ds: Seq<Distro>, name: Seq<char>, i: int)
    requires
        0 <= i <= ds.len(),
        forall|j: int| 0 <= j < i ==> ds[j].name@ != name,
    ensures
        i < ds.len() && ds[i].name@ == name ==> first_named(ds, name) == Some(i),
        i == ds.len() ==> first_named(ds, name) is None,
    decreases i,
{
    if i > 0 {
        let t = ds.drop_first();
        assert forall|j: int| 0 <= j < i - 1 implies t[j].name@ != name by {
            assert(t[j] == ds[j + 1]);
        }
        lemma_first_named(t, name, i - 1);
    }
}

/// Index of the first distro named `name`.
fn find_named(ds: &Vec<Distro>, name: &str) -> (r: Option<usize>)
    ensures
        match r {
            Some(i) => first_named(ds@, name@) == Some(i as int) && i < ds@.len(),
            None => first_named(ds@, name@) is None,
        },
{
    let mut i: usize = 0;
    while i < ds.len()
        invariant
            i <= ds@.len(),
            forall|j: int| 0 <= j < i ==> ds@[j].name@ != name@,
        decreases ds@.len() - i,
    {
        if crate::text::str_eq(ds[i].name.as_str(), name) {
            proof {
                lemma_first_named(ds@, name@, i as int);
            }
            return Some(i);
        }
        i = i + 1;
    }
    proof {
        lemma_first_named(ds@, name@, i as int);
    }
    None
}

proof fn lemma_first_running(ds: Seq<Distro>, i: int)
    requires
        0 <= i <= ds.len(),
        forall|j: int| 0 <= j < i ==> ds[j].state != DistroState::Running,
    ensures
        i < ds.len() && ds[i].state == DistroState::Running ==> first_running(ds) == Some(i),
        i == ds.len() ==> first_running(ds) is None,
    decreases i,
{
    if i > 0 {
        let t = ds.drop_first();
        assert forall|j: int| 0 <= j < i - 1 implies t[j].state != DistroState::Running by {
            assert(t[j] == ds[j + 1]);
        }
        lemma_first_running(t, i - 1);
    }
}

/// Whether `name` is among `v`.
fn contains_name(v: &Vec<String>, name: &str) -> (r: bool)
    ensures
        r == super::model::string_views(v@).contains(name@),
{
    let mut i: usize = 0;
    while i < v.len()
        invariant
            i <= v@.len(),
            forall|j: int| 0 <= j < i ==> v@[j]@ != name@,
        decreases v@.len() - i,
    {
        if crate::text::str_eq(v[i].as_str(), name) {
            assert(super::model::string_views(v@)[i as int] == name@);
            return true;
        }
        i = i + 1;
    }
    assert forall|j: int| 0 <= j < v@.len() implies super::model::string_views(v@)[j] != name@ by {
        assert(super::model::string_views(v@)[j] == v@[j]@);
    }
    false
}

fn sample_inner_disk_if_needed(model: &mut Model) -> (r: Vec<Command>)
    ensures
        final(model)@ == sample_inner_disk_spec(old(model)@).0,
        cmd_views(r@) == sample_inner_disk_spec(old(model)@).1,
{
    let sel = match model.selected_distro() {
        Some(d) => Some((d.name.clone(), d.state == DistroState::Running)),
        None => None,
    };
    match sel {
        Some((name, running)) => {
            if !running || contains_name(&model.inner_disk_attempted, name.as_str()) {
                return no_cmds();
            }
            let ghost before = model.inner_disk_attempted@;
            model.inner_disk_attempted.push(name.clone());
            assert(super::model::string_views(model.inner_disk_attempted@) =~= super::model::string_views(before).push(name@));
            one_cmd(Command::SampleInnerDisk(name))
        },
        None => no_cmds(),
    }
}

fn sample_vm_memory_if_needed(model: &mut Model) -> (r: Vec<Command>)
    ensures
        final(model)@ == sample_vm_memory_spec(old(model)@).0,
        cmd_views(r@) == sample_vm_memory_spec(old(model)@).1,
{
    let ghost m0 = model@;
    let mut i: usize = 0;
    while i < model.distros.len()
        invariant
            m0 == old(model)@,
            model@ == m0,
            i <= model.distros@.len(),
            forall|j: int| 0 <= j < i ==> model.distros@[j].state != DistroState::Running,
        decreases model.distros@.len() - i,
    {
        if model.distros[i].state == DistroState::Running {
            proof {
                lemma_first_running(model.distros@, i as int);
            }
            if model.vm_mem_attempted {
                return no_cmds();
            }
            model.vm_mem_attempted = true;
            let name = model.distros[i].name.clone();
            return one_cmd(Command::SampleVmMemory(name));
        }
        i = i + 1;
    }
    proof {
        lemma_first_running(model.distros@, i as int);
    }
    model.vm_mem_attempted = false;
    model.vm_mem_total = None;
    no_cmds()
}

fn carry_inner_exec(d: Distro, old: &Vec<Distro>) -> (r: Distro)
    ensures
        r == carry_inner(d, old@),
{
    let mut d = d;
    if d.inner_disk.is_none() {
        match find_named(old, d.name.as_str()) {
            Some(i) => {
                d.inner_disk = old[i].inner_disk;
            },
            None => {},
        }
    }
    d
}

fn refreshed(model: &mut Model, distros: Vec<Distro>) -> (r: Vec<Command>)
    requires
        model_wf(old(model)@),
    ensures
        final(model)@ == refreshed_spec(old(model)@, distros@).0,
        cmd_views(r@) == refreshed_spec(old(model)@, distros@).1,
        model_wf(final(model)@),
{
    let ghost old_ds = model.distros@;
    let mut out: Vec<Distro> = Vec::new();
    let mut i: usize = 0;
    while i < distros.len()
        invariant
            i <= distros@.len(),
            old_ds == model.distros@,
            out@ == distros@.take(i as int).map_values(|d: Distro| carry_inner(d, old_ds)),
        decreases distros@.len() - i,
    {
        let d = carry_inner_exec(distros[i].clone(), &model.distros);
        out.push(d);
        i = i + 1;
        assert(distros@.take(i as int).map_values(|d: Distro| carry_inner(d, old_ds))
            =~= distros@.take((i - 1) as int).map_values(|d: Distro| carry_inner(d, old_ds)).push(
            carry_inner(distros@[i - 1], old_ds),
        ));
    }
    assert(distros@.take(distros@.len() as int) == distros@);
    model.distros = out;
    model.loaded = true;
    model.last_error = None;
    model.clamp_selection();
    let c1 = sample_inner_disk_if_needed(model);
    let c2 = sample_vm_memory_if_needed(model);
    let mut cmds = c1;
    let mut rest = c2;
    let ghost v1 = cmds@;
    let ghost v2 = rest@;
    cmds.append(&mut rest);
    assert(cmds@ == v1 + v2);
    assert(cmd_views(cmds@) =~= cmd_views(v1) + cmd_views(v2));
    cmds
}

} // verus!
