use wsl_manager_tui::i18n::Lang;
use wsl_manager_tui::prefs::{KeybindStyle, Prefs, ShellLaunch};

#[test]
fn effective_lang_prefers_saved() {
    let prefs = Prefs { lang: Some(Lang::Ja), ..Default::default() };
    assert_eq!(prefs.effective_lang(&[Some("en_US".into()), None, None]), Lang::Ja);
}

#[test]
fn effective_lang_detects_when_unset() {
    let prefs = Prefs::default();
    assert_eq!(prefs.effective_lang(&[Some("ja_JP.UTF-8".into()), None, None]), Lang::Ja);
    assert_eq!(prefs.effective_lang(&[None, None, None]), Lang::En);
}

#[test]
fn defaults_and_poll_interval_clamp() {
    let prefs = Prefs::default();
    assert_eq!(prefs.poll_interval(), 2);
    assert_eq!(prefs.history_len, 60);
    assert_eq!(prefs.keybind_style, KeybindStyle::Both);
    assert_eq!(prefs.default_shell_launch, ShellLaunch::Inline);
    let zero = Prefs { poll_interval_secs: 0, ..Default::default() };
    assert_eq!(zero.poll_interval(), 1);
}

#[test]
fn manage_dir_defaults_under_userprofile() {
    let prefs = Prefs::default();
    assert_eq!(prefs.manage_dir(r"C:\Users\me"), r"C:\Users\me\wsl-manager");
    assert_eq!(prefs.manage_dir(""), "wsl-manager");
}

#[test]
fn manage_dir_uses_configured_path() {
    let prefs = Prefs { manage_dir: Some(r"D:\wsl".to_string()), ..Default::default() };
    assert_eq!(prefs.manage_dir(r"C:\Users\me"), r"D:\wsl");
}

#[test]
fn keybind_styles_and_shell_modes() {
    assert!(KeybindStyle::Both.arrows_enabled() && KeybindStyle::Both.vim_enabled());
    assert!(KeybindStyle::ArrowsOnly.arrows_enabled() && !KeybindStyle::ArrowsOnly.vim_enabled());
    assert!(!KeybindStyle::VimOnly.arrows_enabled() && KeybindStyle::VimOnly.vim_enabled());
    assert_eq!(ShellLaunch::Inline.other(), ShellLaunch::NewTab);
    assert_eq!(ShellLaunch::NewTab.other(), ShellLaunch::Inline);
}
