use wsl_manager_tui::app::config_edit::EditMode;
use wsl_manager_tui::app::input::{KeyCode, KeyMods, KeyPress};
use wsl_manager_tui::app::model::StatusTone;
use wsl_manager_tui::app::{Action, Command, Event, LifecycleOp, Modal, Model};
use wsl_manager_tui::app::update;
use wsl_manager_tui::config::ConfigTarget;
use wsl_manager_tui::i18n::Lang;
use wsl_manager_tui::manage::{Archive, ExportFormat};
use wsl_manager_tui::metrics::MetricsSample;
use wsl_manager_tui::prefs::{KeybindStyle, ShellLaunch};
use wsl_manager_tui::wsl::{Distro, DistroState, OnlineDistro};

fn key(code: KeyCode, mods: KeyMods) -> Action {
    Action::Event(Event::Key(KeyPress::new(code, mods)))
}

fn ch(c: char) -> Action {
    key(KeyCode::Char(c), KeyMods::none())
}

fn distro(name: &str) -> Distro {
    Distro {
        name: name.to_string(),
        state: DistroState::Stopped,
        version: 2,
        is_default: false,
        guid: None,
        base_path: None,
        vhd_path: None,
        disk_bytes: None,
        inner_disk: None,
    }
}

fn running_distro(name: &str) -> Distro {
    Distro { state: DistroState::Running, ..distro(name) }
}

fn model_with(names: &[&str]) -> Model {
    let mut m = Model::default();
    update(&mut m, Action::Refreshed(names.iter().map(|n| distro(n)).collect()));
    m
}

fn online(name: &str, friendly: &str) -> OnlineDistro {
    OnlineDistro { name: name.to_string(), friendly: friendly.to_string() }
}

fn archive(name: &str) -> Archive {
    Archive { name: name.into(), path: format!(r"C:\wsl\exports\{name}"), size: 1 }
}

fn open_picker(names: &[&str]) -> Model {
    let mut m = model_with(&["Debian"]);
    m.manage_dir = r"C:\wsl".to_string();
    update(&mut m, Action::ExportsListed(names.iter().map(|n| archive(n)).collect()));
    m
}

fn open_progress_via_export(m: &mut Model) {
    m.manage_dir = r"C:\wsl".to_string();
    update(
        m,
        Action::ExportDialogReady { distro: "Debian".into(), filename: "Debian.tar".into() },
    );
    update(m, key(KeyCode::Enter, KeyMods::none()));
}

fn config_loaded(content: &str) -> Action {
    Action::ConfigLoaded { target: ConfigTarget::WslConfig, content: content.to_string() }
}

// ---------------------------------------------------------------------------
// Quitting
// ---------------------------------------------------------------------------
fn q_opens_quit_confirm_then_y_quits_body() {
    let mut m = Model::default();
    update(&mut m, ch('q'));
    assert!(!m.should_quit, "q should ask, not quit immediately");
    assert!(matches!(m.modal, Some(Modal::Quit)));
    update(&mut m, ch('y'));
    assert!(m.should_quit);
}

#[test]
fn update_q_opens_quit_confirm_then_y_quits() {
    q_opens_quit_confirm_then_y_quits_body();
}

#[test]
fn mod_q_opens_quit_confirm_then_y_quits() {
    q_opens_quit_confirm_then_y_quits_body();
}

fn quit_confirm_can_be_cancelled_body() {
    let mut m = Model::default();
    update(&mut m, ch('q'));
    update(&mut m, key(KeyCode::Esc, KeyMods::none()));
    assert!(!m.should_quit);
    assert!(m.modal.is_none());
}

#[test]
fn update_quit_confirm_can_be_cancelled() {
    quit_confirm_can_be_cancelled_body();
}

#[test]
fn mod_quit_confirm_can_be_cancelled() {
    quit_confirm_can_be_cancelled_body();
}

#[test]
fn ctrl_c_opens_quit_confirm_then_y_quits() {
    let mut m = Model::default();
    update(&mut m, key(KeyCode::Char('c'), KeyMods::control()));
    assert!(!m.should_quit, "Ctrl+C should ask, not quit immediately");
    assert!(matches!(m.modal, Some(Modal::Quit)));
    update(&mut m, ch('y'));
    assert!(m.should_quit);
}

#[test]
fn esc_opens_quit_confirm_when_no_filter() {
    let mut m = model_with(&["Debian"]);
    update(&mut m, key(KeyCode::Esc, KeyMods::none()));
    assert!(!m.should_quit, "Esc should ask, not quit immediately");
    assert!(matches!(m.modal, Some(Modal::Quit)));
    update(&mut m, key(KeyCode::Enter, KeyMods::none()));
    assert!(m.should_quit);
}

#[test]
fn quit_action_quits_at_once() {
    let mut m = Model::default();
    assert!(update(&mut m, Action::Quit).is_empty());
    assert!(m.should_quit);
}

#[test]
fn quit_dialog_n_keeps_running() {
    let mut m = Model::default();
    update(&mut m, ch('q'));
    update(&mut m, ch('n'));
    assert!(!m.should_quit);
    assert!(m.modal.is_none());
}

// ---------------------------------------------------------------------------
// Filtering
// ---------------------------------------------------------------------------
fn slash_filters_the_list_body() {
    let mut m = model_with(&["Debian", "Ubuntu", "kali-linux"]);
    update(&mut m, ch('/'));
    assert!(m.filter_mode);
    for c in "ka".chars() {
        update(&mut m, ch(c));
    }
    let visible: Vec<&str> = m.visible_distros().iter().map(|d| d.name.as_str()).collect();
    assert_eq!(visible, ["kali-linux"]);
    update(&mut m, key(KeyCode::Enter, KeyMods::none()));
    assert!(!m.filter_mode);
    assert_eq!(m.selected_distro().map(|d| d.name.as_str()), Some("kali-linux"));
}

#[test]
fn update_slash_filters_the_list() {
    slash_filters_the_list_body();
}

#[test]
fn mod_slash_filters_the_list() {
    slash_filters_the_list_body();
}

fn filter_esc_clears_filter_body() {
    let mut m = model_with(&["Debian", "Ubuntu"]);
    update(&mut m, ch('/'));
    update(&mut m, ch('U'));
    update(&mut m, key(KeyCode::Esc, KeyMods::none()));
    assert!(!m.filter_mode);
    assert!(m.filter.is_empty());
    assert_eq!(m.visible_distros().len(), 2);
}

#[test]
fn update_filter_esc_clears_filter() {
    filter_esc_clears_filter_body();
}

#[test]
fn mod_filter_esc_clears_filter() {
    filter_esc_clears_filter_body();
}

#[test]
fn esc_clears_active_filter_instead_of_quitting() {
    let mut m = model_with(&["Debian", "Ubuntu"]);
    update(&mut m, ch('/'));
    update(&mut m, ch('U'));
    update(&mut m, key(KeyCode::Enter, KeyMods::none()));
    assert!(!m.filter.is_empty(), "filter is applied in list view");
    update(&mut m, key(KeyCode::Esc, KeyMods::none()));
    assert!(m.filter.is_empty(), "Esc clears the active filter");
    assert!(m.modal.is_none(), "Esc must not open quit while a filter was active");
    assert!(!m.should_quit);
}

#[test]
fn filter_is_case_insensitive_and_backspace_widens_it() {
    let mut m = model_with(&["Debian", "Ubuntu"]);
    update(&mut m, ch('/'));
    update(&mut m, ch('d'));
    update(&mut m, ch('E'));
    assert_eq!(m.visible_distros().len(), 1);
    update(&mut m, key(KeyCode::Backspace, KeyMods::none()));
    update(&mut m, key(KeyCode::Backspace, KeyMods::none()));
    assert_eq!(m.visible_distros().len(), 2);
}

// ---------------------------------------------------------------------------
// Help, ticks, metrics, refresh
// ---------------------------------------------------------------------------
fn question_opens_help_body() {
    let mut m = model_with(&["Debian"]);
    update(&mut m, ch('?'));
    assert!(matches!(m.modal, Some(Modal::Help)));
    update(&mut m, ch(' '));
    assert!(m.modal.is_none());
}

#[test]
fn update_question_opens_help() {
    question_opens_help_body();
}

#[test]
fn mod_question_opens_help() {
    question_opens_help_body();
}

fn tick_polls_refresh_and_metrics_body() {
    let mut m = Model::default();
    let cmds = update(&mut m, Action::Event(Event::Tick));
    assert!(cmds.contains(&Command::RefreshList));
    assert!(cmds.contains(&Command::SampleMetrics));
    assert_eq!(m.ticks, 1);
}

#[test]
fn update_tick_polls_refresh_and_metrics() {
    tick_polls_refresh_and_metrics_body();
}

#[test]
fn mod_tick_polls_refresh_and_metrics() {
    tick_polls_refresh_and_metrics_body();
}

fn metrics_sampled_updates_history_body() {
    let mut m = Model::default();
    update(
        &mut m,
        Action::MetricsSampled(MetricsSample {
            vmmem_bytes: Some(123),
            total_mem_bytes: 456,
            ..Default::default()
        }),
    );
    assert_eq!(m.metrics.latest_vmmem(), Some(123));
    assert_eq!(m.metrics.total_mem(), 456);
}

#[test]
fn update_metrics_sampled_updates_history() {
    metrics_sampled_updates_history_body();
}

#[test]
fn mod_metrics_sampled_updates_history() {
    metrics_sampled_updates_history_body();
}

fn r_requests_refresh_body() {
    let mut m = Model::default();
    assert_eq!(update(&mut m, ch('r')), vec![Command::RefreshList]);
}

#[test]
fn update_r_requests_refresh() {
    r_requests_refresh_body();
}

#[test]
fn mod_r_requests_refresh() {
    r_requests_refresh_body();
}

fn navigation_moves_and_clamps_body() {
    let mut m = model_with(&["a", "b"]);
    assert_eq!(m.selected, 0);
    update(&mut m, key(KeyCode::Down, KeyMods::none()));
    assert_eq!(m.selected, 1);
    update(&mut m, key(KeyCode::Down, KeyMods::none()));
    assert_eq!(m.selected, 1);
    update(&mut m, key(KeyCode::Up, KeyMods::none()));
    assert_eq!(m.selected, 0);
}

#[test]
fn update_navigation_moves_and_clamps() {
    navigation_moves_and_clamps_body();
}

#[test]
fn mod_navigation_moves_and_clamps() {
    navigation_moves_and_clamps_body();
}

// ---------------------------------------------------------------------------
// Lifecycle
// ---------------------------------------------------------------------------
fn start_dispatches_immediately_body() {
    let mut m = model_with(&["Debian"]);
    let cmds = update(&mut m, ch('s'));
    assert_eq!(cmds, vec![Command::Lifecycle(LifecycleOp::Start("Debian".into()))]);
    assert!(m.modal.is_none());
}

#[test]
fn update_start_dispatches_immediately() {
    start_dispatches_immediately_body();
}

#[test]
fn mod_start_dispatches_immediately() {
    start_dispatches_immediately_body();
}

fn set_default_dispatches_immediately_body() {
    let mut m = model_with(&["Debian"]);
    let cmds = update(&mut m, ch('d'));
    assert_eq!(cmds, vec![Command::Lifecycle(LifecycleOp::SetDefault("Debian".into()))]);
}

#[test]
fn update_set_default_dispatches_immediately() {
    set_default_dispatches_immediately_body();
}

#[test]
fn mod_set_default_dispatches_immediately() {
    set_default_dispatches_immediately_body();
}

fn terminate_requires_confirmation_body() {
    let mut m = model_with(&["Debian"]);
    let cmds = update(&mut m, ch('x'));
    assert!(cmds.is_empty(), "no command before confirmation");
    assert!(matches!(m.modal, Some(Modal::Confirm(_))));
    let cmds = update(&mut m, key(KeyCode::Enter, KeyMods::none()));
    assert_eq!(cmds, vec![Command::Lifecycle(LifecycleOp::Terminate("Debian".into()))]);
    assert!(m.modal.is_none());
}

#[test]
fn update_terminate_requires_confirmation() {
    terminate_requires_confirmation_body();
}

#[test]
fn mod_terminate_requires_confirmation() {
    terminate_requires_confirmation_body();
}

fn confirm_can_be_cancelled_with_esc_body() {
    let mut m = model_with(&["Debian"]);
    update(&mut m, ch('x'));
    let cmds = update(&mut m, key(KeyCode::Esc, KeyMods::none()));
    assert!(cmds.is_empty());
    assert!(m.modal.is_none());
}

#[test]
fn update_confirm_can_be_cancelled_with_esc() {
    confirm_can_be_cancelled_with_esc_body();
}

#[test]
fn mod_confirm_can_be_cancelled_with_esc() {
    confirm_can_be_cancelled_with_esc_body();
}

fn shutdown_confirmation_accepts_y_body() {
    let mut m = model_with(&["Debian"]);
    update(&mut m, key(KeyCode::Char('X'), KeyMods::shift()));
    assert!(matches!(m.modal, Some(Modal::Confirm(_))));
    let cmds = update(&mut m, ch('y'));
    assert_eq!(cmds, vec![Command::Lifecycle(LifecycleOp::Shutdown)]);
}

#[test]
fn update_shutdown_confirmation_accepts_y() {
    shutdown_confirmation_accepts_y_body();
}

#[test]
fn mod_shutdown_confirmation_accepts_y() {
    shutdown_confirmation_accepts_y_body();
}

fn unregister_requires_typed_name_body() {
    let mut m = model_with(&["Debian"]);
    update(&mut m, ch('u'));
    let cmds = update(&mut m, key(KeyCode::Enter, KeyMods::none()));
    assert!(cmds.is_empty());
    assert!(matches!(m.modal, Some(Modal::Confirm(_))));
    for c in "Debian".chars() {
        update(&mut m, ch(c));
    }
    let cmds = update(&mut m, key(KeyCode::Enter, KeyMods::none()));
    assert_eq!(cmds, vec![Command::Lifecycle(LifecycleOp::Unregister("Debian".into()))]);
}

#[test]
fn update_unregister_requires_typed_name() {
    unregister_requires_typed_name_body();
}

#[test]
fn mod_unregister_requires_typed_name() {
    unregister_requires_typed_name_body();
}

#[test]
fn unregister_y_only_types_into_the_guard() {
    let mut m = model_with(&["Debian"]);
    update(&mut m, ch('u'));
    assert!(update(&mut m, ch('y')).is_empty());
    update(&mut m, key(KeyCode::Backspace, KeyMods::none()));
    match &m.modal {
        Some(Modal::Confirm(c)) => {
            let typed = c.require_typed.as_ref().unwrap();
            assert_eq!(typed.input, "");
            assert!(!typed.matches());
        }
        other => panic!("expected confirm, got {other:?}"),
    }
}

fn keys_are_consumed_by_open_modal_body() {
    let mut m = model_with(&["Debian"]);
    update(&mut m, ch('x'));
    update(&mut m, ch('q'));
    assert!(!m.should_quit);
}

#[test]
fn update_keys_are_consumed_by_open_modal() {
    keys_are_consumed_by_open_modal_body();
}

#[test]
fn mod_keys_are_consumed_by_open_modal() {
    keys_are_consumed_by_open_modal_body();
}

fn op_done_sets_status_and_refreshes_body() {
    let mut m = Model::default();
    let cmds = update(&mut m, Action::OpDone("Terminated Debian".into()));
    assert_eq!(cmds, vec![Command::RefreshList]);
    assert_eq!(m.status.as_deref(), Some("Terminated Debian"));
}

#[test]
fn update_op_done_sets_status_and_refreshes() {
    op_done_sets_status_and_refreshes_body();
}

#[test]
fn mod_op_done_sets_status_and_refreshes() {
    op_done_sets_status_and_refreshes_body();
}

// ---------------------------------------------------------------------------
// Status expiry
// ---------------------------------------------------------------------------
#[test]
fn status_message_auto_expires_after_ttl() {
    let mut m = Model::default();
    update(&mut m, Action::OpDone("Done".into()));
    assert_eq!(m.status.as_deref(), Some("Done"));
    for _ in 0..(Model::STATUS_TTL_FRAMES - 1) {
        update(&mut m, Action::Event(Event::Frame));
    }
    assert_eq!(m.status.as_deref(), Some("Done"), "still shown before TTL");
    update(&mut m, Action::Event(Event::Frame));
    assert!(m.status.is_none(), "auto-expired after TTL frames");
}

#[test]
fn next_key_clears_status_immediately() {
    let mut m = model_with(&["Debian"]);
    update(&mut m, Action::OpDone("Done".into()));
    assert!(m.status.is_some());
    update(&mut m, key(KeyCode::Down, KeyMods::none()));
    assert!(m.status.is_none(), "next key clears the status");
}

#[test]
fn poll_tick_does_not_clear_status() {
    let mut m = Model::default();
    update(&mut m, Action::OpDone("Done".into()));
    update(&mut m, Action::Event(Event::Tick));
    assert_eq!(m.status.as_deref(), Some("Done"));
}

#[test]
fn new_status_resets_expiry_countdown() {
    let mut m = Model::default();
    update(&mut m, Action::OpDone("First".into()));
    for _ in 0..20 {
        update(&mut m, Action::Event(Event::Frame));
    }
    update(&mut m, Action::OpDone("Second".into()));
    assert_eq!(m.status_frames_left, Model::STATUS_TTL_FRAMES, "a fresh status restarts the countdown");
}

#[test]
fn key_that_sets_a_new_status_keeps_it() {
    let mut m = model_with(&["Debian"]);
    update(&mut m, Action::OpDone("Old".into()));
    update(&mut m, ch('s'));
    assert!(m.status.is_some(), "the start key sets a fresh status that survives the per-key clear");
    assert_ne!(m.status.as_deref(), Some("Old"));
}

fn op_failed_opens_error_modal_body() {
    let mut m = Model::default();
    update(&mut m, Action::OpFailed("boom".into()));
    assert!(matches!(m.modal, Some(Modal::Error { .. })));
    update(&mut m, ch(' '));
    assert!(m.modal.is_none());
}

#[test]
fn update_op_failed_opens_error_modal() {
    op_failed_opens_error_modal_body();
}

#[test]
fn mod_op_failed_opens_error_modal() {
    op_failed_opens_error_modal_body();
}

fn refreshed_clears_error_and_clamps_body() {
    let mut m = Model { last_error: Some("boom".to_string()), ..Default::default() };
    update(&mut m, Action::Refreshed(vec![distro("a")]));
    assert!(m.last_error.is_none());
    assert!(m.loaded);
    assert_eq!(m.selected, 0);
}

#[test]
fn update_refreshed_clears_error_and_clamps() {
    refreshed_clears_error_and_clamps_body();
}

#[test]
fn mod_refreshed_clears_error_and_clamps() {
    refreshed_clears_error_and_clamps_body();
}

#[test]
fn refresh_failed_keeps_list_and_records_error() {
    let mut m = model_with(&["Debian"]);
    update(&mut m, Action::RefreshFailed("wsl.exe missing".into()));
    assert_eq!(m.last_error.as_deref(), Some("wsl.exe missing"));
    assert_eq!(m.distros.len(), 1);
}

#[test]
fn shrinking_list_clamps_selection() {
    let mut m = model_with(&["a", "b", "c"]);
    update(&mut m, key(KeyCode::Down, KeyMods::none()));
    update(&mut m, key(KeyCode::Down, KeyMods::none()));
    assert_eq!(m.selected, 2);
    update(&mut m, Action::Refreshed(vec![distro("a")]));
    assert_eq!(m.selected, 0);
}

// ---------------------------------------------------------------------------
// Shells
// ---------------------------------------------------------------------------
fn enter_launches_inline_shell_body() {
    let mut m = model_with(&["Debian"]);
    let cmds = update(&mut m, key(KeyCode::Enter, KeyMods::none()));
    assert_eq!(cmds, vec![Command::LaunchInlineShell("Debian".into())]);
}

#[test]
fn update_enter_launches_inline_shell() {
    enter_launches_inline_shell_body();
}

#[test]
fn mod_enter_launches_inline_shell() {
    enter_launches_inline_shell_body();
}

fn shift_enter_launches_tab_shell_body() {
    let mut m = model_with(&["Debian"]);
    let cmds = update(&mut m, key(KeyCode::Enter, KeyMods::shift()));
    assert_eq!(cmds, vec![Command::LaunchTabShell("Debian".into())]);
}

#[test]
fn update_shift_enter_launches_tab_shell() {
    shift_enter_launches_tab_shell_body();
}

#[test]
fn mod_shift_enter_launches_tab_shell() {
    shift_enter_launches_tab_shell_body();
}

fn w_launches_tab_shell_body() {
    let mut m = model_with(&["Debian"]);
    let cmds = update(&mut m, ch('w'));
    assert_eq!(cmds, vec![Command::LaunchTabShell("Debian".into())]);
}

#[test]
fn update_w_launches_tab_shell() {
    w_launches_tab_shell_body();
}

#[test]
fn mod_w_launches_tab_shell() {
    w_launches_tab_shell_body();
}

fn enter_with_empty_list_does_nothing_body() {
    let mut m = Model::default();
    let cmds = update(&mut m, key(KeyCode::Enter, KeyMods::none()));
    assert!(cmds.is_empty());
}

#[test]
fn update_enter_with_empty_list_does_nothing() {
    enter_with_empty_list_does_nothing_body();
}

#[test]
fn mod_enter_with_empty_list_does_nothing() {
    enter_with_empty_list_does_nothing_body();
}

#[test]
fn default_shell_launch_newtab_makes_enter_open_a_tab() {
    let mut m = model_with(&["Debian"]);
    m.default_shell_launch = ShellLaunch::NewTab;
    let cmds = update(&mut m, key(KeyCode::Enter, KeyMods::none()));
    assert_eq!(cmds, vec![Command::LaunchTabShell("Debian".into())]);
    let cmds = update(&mut m, key(KeyCode::Enter, KeyMods::shift()));
    assert_eq!(cmds, vec![Command::LaunchInlineShell("Debian".into())]);
}

#[test]
fn arrows_only_disables_vim_keys() {
    let mut m = model_with(&["a", "b"]);
    m.keybind_style = KeybindStyle::ArrowsOnly;
    update(&mut m, ch('j'));
    assert_eq!(m.selected, 0, "j must not move when arrows-only");
    update(&mut m, key(KeyCode::Down, KeyMods::none()));
    assert_eq!(m.selected, 1, "arrows still move");
}

#[test]
fn vim_only_disables_arrows() {
    let mut m = model_with(&["a", "b"]);
    m.keybind_style = KeybindStyle::VimOnly;
    update(&mut m, key(KeyCode::Down, KeyMods::none()));
    assert_eq!(m.selected, 0, "arrows must not move when vim-only");
    update(&mut m, ch('j'));
    assert_eq!(m.selected, 1);
}

// ---------------------------------------------------------------------------
// Export / import
// ---------------------------------------------------------------------------
#[test]
fn e_opens_export_dialog_command() {
    let mut m = model_with(&["Debian"]);
    let cmds = update(&mut m, ch('e'));
    assert_eq!(cmds, vec![Command::OpenExportDialog { distro: "Debian".into() }]);
    assert!(m.modal.is_none(), "form opens only after ExportDialogReady");
}

#[test]
fn export_dialog_ready_opens_form() {
    let mut m = model_with(&["Debian"]);
    update(
        &mut m,
        Action::ExportDialogReady {
            distro: "Debian".into(),
            filename: "Debian-20260607-153012.tar".into(),
        },
    );
    match &m.modal {
        Some(Modal::Form(form)) => assert_eq!(form.value(0), "Debian-20260607-153012.tar"),
        other => panic!("expected export form, got {other:?}"),
    }
}

#[test]
fn m_requests_export_listing() {
    let mut m = model_with(&["Debian"]);
    assert_eq!(update(&mut m, ch('m')), vec![Command::ListExports]);
}

#[test]
fn exports_listed_opens_picker() {
    let mut m = Model::default();
    update(
        &mut m,
        Action::ExportsListed(vec![Archive {
            name: "Ubuntu.tar".into(),
            path: r"C:\wsl\exports\Ubuntu.tar".to_string(),
            size: 10,
        }]),
    );
    assert!(matches!(m.modal, Some(Modal::ImportPick(_))));
}

#[test]
fn export_submit_builds_managed_path_and_format() {
    let mut m = model_with(&["Debian"]);
    m.manage_dir = r"C:\wsl".to_string();
    update(
        &mut m,
        Action::ExportDialogReady { distro: "Debian".into(), filename: "Debian.tar.gz".into() },
    );
    let cmds = update(&mut m, key(KeyCode::Enter, KeyMods::none()));
    assert_eq!(
        cmds,
        vec![Command::Export {
            name: "Debian".into(),
            path: r"C:\wsl\exports\Debian.tar.gz".to_string(),
            format: ExportFormat::TarGz,
        }]
    );
    assert!(matches!(m.modal, Some(Modal::Progress(_))));
}

#[test]
fn export_with_blank_file_name_stays_open() {
    let mut m = model_with(&["Debian"]);
    update(&mut m, Action::ExportDialogReady { distro: "Debian".into(), filename: "x".into() });
    update(&mut m, key(KeyCode::Backspace, KeyMods::none()));
    update(&mut m, ch(' '));
    assert!(update(&mut m, key(KeyCode::Enter, KeyMods::none())).is_empty());
    assert!(matches!(m.modal, Some(Modal::Form(_))));
}

#[test]
fn picker_enter_opens_name_form_prefilled() {
    let mut m = open_picker(&["Ubuntu-20260607.tar.gz"]);
    update(&mut m, key(KeyCode::Enter, KeyMods::none()));
    match &m.modal {
        Some(Modal::Form(form)) => assert_eq!(form.value(0), "Ubuntu-20260607"),
        other => panic!("expected import name form, got {other:?}"),
    }
}

#[test]
fn picker_import_dispatches_with_managed_dir_and_vhd_flag() {
    let mut m = open_picker(&["box.vhdx"]);
    update(&mut m, key(KeyCode::Enter, KeyMods::none()));
    let cmds = update(&mut m, key(KeyCode::Enter, KeyMods::none()));
    assert_eq!(
        cmds,
        vec![Command::Import {
            name: "box".into(),
            dir: r"C:\wsl\installed\box".to_string(),
            tar: r"C:\wsl\exports\box.vhdx".to_string(),
            vhd: true,
        }]
    );
    assert!(matches!(m.modal, Some(Modal::Progress(_))));
}

#[test]
fn picker_d_asks_to_delete() {
    let mut m = open_picker(&["old.tar"]);
    let cmds = update(&mut m, ch('d'));
    assert!(cmds.is_empty(), "delete is confirmed first");
    assert!(matches!(m.modal, Some(Modal::Confirm(_))));
    let cmds = update(&mut m, ch('y'));
    assert_eq!(cmds, vec![Command::DeleteExport(r"C:\wsl\exports\old.tar".to_string())]);
}

#[test]
fn picker_c_opens_custom_form() {
    let mut m = open_picker(&["a.tar"]);
    update(&mut m, ch('c'));
    match &m.modal {
        Some(Modal::Form(form)) => assert_eq!(form.fields.len(), 2),
        other => panic!("expected custom import form, got {other:?}"),
    }
}

#[test]
fn picker_esc_closes() {
    let mut m = open_picker(&["a.tar"]);
    let cmds = update(&mut m, key(KeyCode::Esc, KeyMods::none()));
    assert!(cmds.is_empty());
    assert!(m.modal.is_none());
}

#[test]
fn import_existing_name_asks_overwrite() {
    let mut m = open_picker(&["Debian.tar"]);
    update(&mut m, key(KeyCode::Enter, KeyMods::none()));
    let cmds = update(&mut m, key(KeyCode::Enter, KeyMods::none()));
    assert!(cmds.is_empty(), "must confirm overwrite");
    assert!(matches!(m.modal, Some(Modal::Confirm(_))));
    let cmds = update(&mut m, ch('y'));
    assert!(matches!(cmds.as_slice(), [Command::Import { .. }]));
    assert!(matches!(m.modal, Some(Modal::Progress(_))));
}

#[test]
fn picker_navigation_moves_selection() {
    let mut m = open_picker(&["a.tar", "b.tar"]);
    update(&mut m, key(KeyCode::Down, KeyMods::none()));
    match &m.modal {
        Some(Modal::ImportPick(p)) => assert_eq!(p.selected, 1),
        other => panic!("expected picker, got {other:?}"),
    }
    update(&mut m, ch('k'));
    match &m.modal {
        Some(Modal::ImportPick(p)) => assert_eq!(p.selected, 0),
        other => panic!("expected picker, got {other:?}"),
    }
}

#[test]
fn custom_import_submit_uses_typed_path_and_managed_dir() {
    let mut m = open_picker(&["a.tar"]);
    update(&mut m, ch('c'));
    for c in r"D:\dl\thing.tar.gz".chars() {
        update(&mut m, ch(c));
    }
    update(&mut m, key(KeyCode::Tab, KeyMods::none()));
    for c in "Imported".chars() {
        update(&mut m, ch(c));
    }
    let cmds = update(&mut m, key(KeyCode::Enter, KeyMods::none()));
    assert_eq!(
        cmds,
        vec![Command::Import {
            name: "Imported".into(),
            dir: r"C:\wsl\installed\Imported".to_string(),
            tar: r"D:\dl\thing.tar.gz".to_string(),
            vhd: false,
        }]
    );
    assert!(matches!(m.modal, Some(Modal::Progress(_))));
}

#[test]
fn custom_import_needs_both_fields() {
    let mut m = open_picker(&["a.tar"]);
    update(&mut m, ch('c'));
    for c in "x.tar".chars() {
        update(&mut m, ch(c));
    }
    assert!(update(&mut m, key(KeyCode::Enter, KeyMods::none())).is_empty());
    assert!(matches!(m.modal, Some(Modal::Form(_))));
}

// ---------------------------------------------------------------------------
// Install
// ---------------------------------------------------------------------------
fn i_requests_online_list_body() {
    let mut m = model_with(&["Debian"]);
    let cmds = update(&mut m, ch('i'));
    assert_eq!(cmds, vec![Command::ListOnline]);
}

#[test]
fn update_i_requests_online_list() {
    i_requests_online_list_body();
}

#[test]
fn mod_i_requests_online_list() {
    i_requests_online_list_body();
}

fn online_list_opens_install_pick_body() {
    let mut m = Model::default();
    update(&mut m, Action::OnlineList(vec![online("Ubuntu", "Ubuntu"), online("Debian", "Debian")]));
    assert!(matches!(m.modal, Some(Modal::InstallPick(_))));
}

#[test]
fn update_online_list_opens_install_pick() {
    online_list_opens_install_pick_body();
}

#[test]
fn mod_online_list_opens_install_pick() {
    online_list_opens_install_pick_body();
}

fn install_pick_filters_and_installs_body() {
    let mut m = Model::default();
    update(
        &mut m,
        Action::OnlineList(vec![online("Ubuntu", "Ubuntu"), online("Debian", "Debian GNU/Linux")]),
    );
    update(&mut m, ch('D'));
    let cmds = update(&mut m, key(KeyCode::Enter, KeyMods::none()));
    assert_eq!(cmds, vec![Command::Install { name: "Debian".into() }]);
    assert!(matches!(m.modal, Some(Modal::Progress(_))));
}

#[test]
fn update_install_pick_filters_and_installs() {
    install_pick_filters_and_installs_body();
}

#[test]
fn mod_install_pick_filters_and_installs() {
    install_pick_filters_and_installs_body();
}

#[test]
fn install_progress_title_names_the_distro() {
    let mut m = Model::default();
    update(&mut m, Action::OnlineList(vec![online("Ubuntu", "Ubuntu")]));
    update(&mut m, key(KeyCode::Enter, KeyMods::none()));
    match &m.modal {
        Some(Modal::Progress(p)) => assert_eq!(p.title, "Installing 'Ubuntu'"),
        other => panic!("expected progress, got {other:?}"),
    }
}

// ---------------------------------------------------------------------------
// Progress
// ---------------------------------------------------------------------------
fn progress_esc_cancels_body() {
    let mut m = model_with(&["Debian"]);
    open_progress_via_export(&mut m);
    assert!(matches!(m.modal, Some(Modal::Progress(_))));
    let cmds = update(&mut m, key(KeyCode::Esc, KeyMods::none()));
    assert_eq!(cmds, vec![Command::CancelOp]);
    assert!(m.modal.is_none());
}

#[test]
fn update_progress_esc_cancels() {
    progress_esc_cancels_body();
}

#[test]
fn mod_progress_esc_cancels() {
    progress_esc_cancels_body();
}

fn op_done_closes_progress_modal_body() {
    let mut m = model_with(&["Debian"]);
    open_progress_via_export(&mut m);
    let cmds = update(&mut m, Action::OpDone("Exported Debian".into()));
    assert!(m.modal.is_none());
    assert!(cmds.contains(&Command::RefreshList));
}

#[test]
fn update_op_done_closes_progress_modal() {
    op_done_closes_progress_modal_body();
}

#[test]
fn mod_op_done_closes_progress_modal() {
    op_done_closes_progress_modal_body();
}

fn frame_advances_progress_spinner_body() {
    let mut m = model_with(&["Debian"]);
    open_progress_via_export(&mut m);
    let before = match &m.modal {
        Some(Modal::Progress(p)) => p.frame,
        _ => panic!("expected progress modal"),
    };
    update(&mut m, Action::Event(Event::Frame));
    let after = match &m.modal {
        Some(Modal::Progress(p)) => p.frame,
        _ => panic!("expected progress modal"),
    };
    assert_eq!(after, before + 1);
}

#[test]
fn update_frame_advances_progress_spinner() {
    frame_advances_progress_spinner_body();
}

#[test]
fn mod_frame_advances_progress_spinner() {
    frame_advances_progress_spinner_body();
}

// ---------------------------------------------------------------------------
// Config editor
// ---------------------------------------------------------------------------
fn c_loads_wslconfig_body() {
    let mut m = model_with(&["Debian"]);
    let cmds = update(&mut m, ch('c'));
    assert_eq!(cmds, vec![Command::LoadConfig(ConfigTarget::WslConfig)]);
}

#[test]
fn update_c_loads_wslconfig() {
    c_loads_wslconfig_body();
}

#[test]
fn mod_c_loads_wslconfig() {
    c_loads_wslconfig_body();
}

fn shift_c_loads_wslconf_for_selected_body() {
    let mut m = model_with(&["Debian"]);
    let cmds = update(&mut m, key(KeyCode::Char('C'), KeyMods::shift()));
    assert_eq!(cmds, vec![Command::LoadConfig(ConfigTarget::WslConf("Debian".into()))]);
}

#[test]
fn update_shift_c_loads_wslconf_for_selected() {
    shift_c_loads_wslconf_for_selected_body();
}

#[test]
fn mod_shift_c_loads_wslconf_for_selected() {
    shift_c_loads_wslconf_for_selected_body();
}

fn config_loaded_opens_editor_body() {
    let mut m = Model::default();
    update(&mut m, config_loaded("[wsl2]\nmemory=8GB\n"));
    assert!(matches!(m.modal, Some(Modal::ConfigEdit(_))));
}

#[test]
fn update_config_loaded_opens_editor() {
    config_loaded_opens_editor_body();
}

#[test]
fn mod_config_loaded_opens_editor() {
    config_loaded_opens_editor_body();
}

fn config_editor_saves_with_ctrl_s_body() {
    let mut m = Model::default();
    update(&mut m, config_loaded("[wsl2]\nmemory=8GB\n"));
    let cmds = update(&mut m, key(KeyCode::Char('s'), KeyMods::control()));
    assert!(matches!(
        cmds.as_slice(),
        [Command::SaveConfig { target: ConfigTarget::WslConfig, .. }]
    ));
    assert!(m.modal.is_none());
}

#[test]
fn update_config_editor_saves_with_ctrl_s() {
    config_editor_saves_with_ctrl_s_body();
}

#[test]
fn mod_config_editor_saves_with_ctrl_s() {
    config_editor_saves_with_ctrl_s_body();
}

fn config_editor_tab_toggles_to_raw_body() {
    let mut m = Model::default();
    update(&mut m, config_loaded("[wsl2]\nmemory=8GB\n"));
    update(&mut m, key(KeyCode::Tab, KeyMods::none()));
    match &m.modal {
        Some(Modal::ConfigEdit(state)) => assert_eq!(state.mode, EditMode::Raw),
        _ => panic!("expected config editor"),
    }
}

#[test]
fn update_config_editor_tab_toggles_to_raw() {
    config_editor_tab_toggles_to_raw_body();
}

#[test]
fn mod_config_editor_tab_toggles_to_raw() {
    config_editor_tab_toggles_to_raw_body();
}

#[test]
fn config_editor_raw_edit_is_saved() {
    let mut m = Model::default();
    update(&mut m, config_loaded("[wsl2]\nmemory=8GB\n"));
    update(&mut m, key(KeyCode::Tab, KeyMods::none()));
    update(&mut m, ch('#'));
    let cmds = update(&mut m, key(KeyCode::Char('s'), KeyMods::control()));
    assert_eq!(
        cmds,
        vec![Command::SaveConfig {
            target: ConfigTarget::WslConfig,
            content: "#[wsl2]\nmemory=8GB\n".to_string(),
        }]
    );
    assert_eq!(m.status.as_deref(), Some("Saving .wslconfig (global)…"));
}

#[test]
fn config_editor_form_edit_is_saved() {
    let mut m = Model::default();
    update(&mut m, config_loaded("[wsl2]\nmemory=8GB\n"));
    update(&mut m, key(KeyCode::Backspace, KeyMods::none()));
    update(&mut m, key(KeyCode::Backspace, KeyMods::none()));
    update(&mut m, key(KeyCode::Backspace, KeyMods::none()));
    for c in "4GB".chars() {
        update(&mut m, ch(c));
    }
    let cmds = update(&mut m, key(KeyCode::Char('s'), KeyMods::control()));
    assert_eq!(
        cmds,
        vec![Command::SaveConfig {
            target: ConfigTarget::WslConfig,
            content: "[wsl2]\nmemory=4GB\n".to_string(),
        }]
    );
}

// ---------------------------------------------------------------------------
// Language and sampling
// ---------------------------------------------------------------------------
fn shift_l_toggles_language_and_saves_body() {
    let mut m = Model::default();
    assert_eq!(m.lang, Lang::En);
    let cmds = update(&mut m, key(KeyCode::Char('L'), KeyMods::shift()));
    assert_eq!(m.lang, Lang::Ja);
    assert_eq!(cmds, vec![Command::SavePrefs]);
}

#[test]
fn update_shift_l_toggles_language_and_saves() {
    shift_l_toggles_language_and_saves_body();
}

#[test]
fn mod_shift_l_toggles_language_and_saves() {
    shift_l_toggles_language_and_saves_body();
}

#[test]
fn prompts_follow_the_language() {
    let mut m = model_with(&["Debian"]);
    m.lang = Lang::Ja;
    update(&mut m, ch('x'));
    match &m.modal {
        Some(Modal::Confirm(c)) => assert_eq!(c.prompt, "'Debian' を停止しますか？"),
        other => panic!("expected confirm, got {other:?}"),
    }
}

#[test]
fn refreshed_samples_inner_disk_for_running_selected_once_only() {
    let mut m = Model::default();
    let cmds = update(&mut m, Action::Refreshed(vec![running_distro("Debian")]));
    assert_eq!(
        cmds,
        vec![
            Command::SampleInnerDisk("Debian".into()),
            Command::SampleVmMemory("Debian".into()),
        ]
    );
    let cmds = update(&mut m, Action::Refreshed(vec![running_distro("Debian")]));
    assert!(cmds.is_empty(), "must not re-sample the same distro");
}

#[test]
fn vm_memory_sampled_sets_total() {
    let mut m = Model::default();
    update(&mut m, Action::VmMemorySampled(Some(8 * 1024 * 1024 * 1024)));
    assert_eq!(m.vm_mem_total, Some(8 * 1024 * 1024 * 1024));
}

#[test]
fn vm_memory_resets_and_resamples_when_vm_cycles() {
    let mut m = Model::default();
    update(&mut m, Action::Refreshed(vec![running_distro("Debian")]));
    update(&mut m, Action::VmMemorySampled(Some(4 * 1024 * 1024 * 1024)));
    assert_eq!(m.vm_mem_total, Some(4 * 1024 * 1024 * 1024));
    let cmds = update(&mut m, Action::Refreshed(vec![distro("Debian")]));
    assert!(cmds.is_empty());
    assert_eq!(m.vm_mem_total, None);
    let cmds = update(&mut m, Action::Refreshed(vec![running_distro("Debian")]));
    assert!(cmds.contains(&Command::SampleVmMemory("Debian".into())));
}

#[test]
fn vm_memory_retries_after_a_failed_sample() {
    let mut m = Model::default();
    update(&mut m, Action::Refreshed(vec![running_distro("Debian")]));
    update(&mut m, Action::VmMemorySampled(None));
    assert_eq!(m.vm_mem_total, None);
    let cmds = update(&mut m, Action::Refreshed(vec![running_distro("Debian")]));
    assert!(
        cmds.contains(&Command::SampleVmMemory("Debian".into())),
        "a failed sample must be retried on the next refresh"
    );
}

#[test]
fn vm_memory_not_resampled_after_success() {
    let mut m = Model::default();
    update(&mut m, Action::Refreshed(vec![running_distro("Debian")]));
    update(&mut m, Action::VmMemorySampled(Some(4 * 1024 * 1024 * 1024)));
    let cmds = update(&mut m, Action::Refreshed(vec![running_distro("Debian")]));
    assert!(
        !cmds.iter().any(|c| matches!(c, Command::SampleVmMemory(_))),
        "must not re-sample once a value is known"
    );
}

#[test]
fn refreshed_does_not_sample_stopped_distro() {
    let mut m = Model::default();
    let cmds = update(&mut m, Action::Refreshed(vec![distro("Debian")]));
    assert!(cmds.is_empty());
}

#[test]
fn inner_disk_sample_sets_value_and_carries_forward() {
    let mut m = Model::default();
    update(&mut m, Action::Refreshed(vec![running_distro("Debian")]));
    update(
        &mut m,
        Action::InnerDiskSampled { name: "Debian".into(), inner: Some((10, 100)) },
    );
    assert_eq!(m.distros[0].inner_disk, Some((10, 100)));
    update(&mut m, Action::Refreshed(vec![running_distro("Debian")]));
    assert_eq!(m.distros[0].inner_disk, Some((10, 100)));
}

#[test]
fn mem_total_prefers_vm_memory() {
    let mut m = Model::default();
    assert_eq!(m.mem_total(), None);
    update(
        &mut m,
        Action::MetricsSampled(MetricsSample { total_mem_bytes: 64, ..Default::default() }),
    );
    assert_eq!(m.mem_total(), Some(64));
    update(&mut m, Action::VmMemorySampled(Some(16)));
    assert_eq!(m.mem_total(), Some(16));
}

#[test]
fn lifecycle_done_messages() {
    assert_eq!(LifecycleOp::Start("D".into()).done_message(Lang::En), "Started D");
    assert_eq!(LifecycleOp::Shutdown.done_message(Lang::En), "WSL shut down");
    assert_eq!(LifecycleOp::Unregister("D".into()).done_message(Lang::Ja), "D を登録解除しました");
}

#[test]
fn status_line_follows_precedence() {
    let mut m = Model::default();
    assert_eq!(m.status_line(), (StatusTone::Muted, "loading…".to_string()));
    m.loaded = true;
    let (tone, hint) = m.status_line();
    assert_eq!(tone, StatusTone::Muted);
    assert!(hint.starts_with("j/k move"));
    m.status = Some("Started Debian".to_string());
    assert_eq!(m.status_line(), (StatusTone::Success, "Started Debian".to_string()));
    m.last_error = Some("boom".to_string());
    assert_eq!(m.status_line(), (StatusTone::Error, "error: boom".to_string()));
    m.filter = "deb".to_string();
    assert_eq!(
        m.status_line(),
        (StatusTone::Notice, "filter: deb · Esc clears".to_string())
    );
    m.filter_mode = true;
    assert_eq!(m.status_line(), (StatusTone::Input, "/deb▏".to_string()));
}

#[test]
fn export_to_absolute_file_name_ignores_managed_folder() {
    for (typed, expected) in [
        (r"D:\backup\Debian.tar", r"D:\backup\Debian.tar"),
        (r"\backup\Debian.tar", r"C:\backup\Debian.tar"),
        (r"\\nas\share\Debian.tar", r"\\nas\share\Debian.tar"),
    ] {
        let mut m = model_with(&["Debian"]);
        m.manage_dir = r"C:\wsl".to_string();
        update(
            &mut m,
            Action::ExportDialogReady { distro: "Debian".into(), filename: typed.into() },
        );
        let cmds = update(&mut m, key(KeyCode::Enter, KeyMods::none()));
        assert_eq!(
            cmds,
            vec![Command::Export {
                name: "Debian".into(),
                path: expected.to_string(),
                format: ExportFormat::Tar,
            }]
        );
    }
}

#[test]
fn export_to_rooted_file_name_keeps_the_unc_share() {
    let mut m = model_with(&["Debian"]);
    m.manage_dir = r"\\nas\share\wsl".to_string();
    update(
        &mut m,
        Action::ExportDialogReady { distro: "Debian".into(), filename: r"\backup\Debian.tar".into() },
    );
    let cmds = update(&mut m, key(KeyCode::Enter, KeyMods::none()));
    assert_eq!(
        cmds,
        vec![Command::Export {
            name: "Debian".into(),
            path: r"\\nas\share\backup\Debian.tar".to_string(),
            format: ExportFormat::Tar,
        }]
    );
}

#[test]
fn form_value_is_trimmed() {
    let mut m = model_with(&["Debian"]);
    update(&mut m, Action::ExportDialogReady { distro: "Debian".into(), filename: "x".into() });
    match &mut m.modal {
        Some(Modal::Form(form)) => {
            form.fields[0].value = "  a.tar ".to_string();
            assert_eq!(form.value(0), "a.tar");
        }
        _ => panic!("export form expected"),
    }
}

#[test]
fn a_name_asked_twice_breaks_consistency() {
    let mut m = Model::default();
    assert!(m.is_consistent());
    m.inner_disk_attempted = vec!["Debian".to_string(), "Ubuntu".to_string()];
    assert!(m.is_consistent());
    m.inner_disk_attempted.push("Debian".to_string());
    assert!(!m.is_consistent());
}
