use wsl_manager_tui::i18n::{lang_from_locale, t, tf, Key, Lang};

#[test]
fn every_key_has_both_languages() {
    for &key in Key::all().iter() {
        assert!(!t(Lang::En, key).is_empty(), "missing EN for {key:?}");
        assert!(!t(Lang::Ja, key).is_empty(), "missing JA for {key:?}");
    }
}

#[test]
fn all_keys_listed_once() {
    let all = Key::all();
    assert_eq!(all.len(), 86);
    for (i, a) in all.iter().enumerate() {
        assert!(!all[i + 1..].contains(a), "duplicate {a:?}");
    }
}

#[test]
fn toggled_swaps() {
    assert_eq!(Lang::En.toggled(), Lang::Ja);
    assert_eq!(Lang::Ja.toggled(), Lang::En);
}

#[test]
fn toggling_twice_restores_language() {
    for l in [Lang::En, Lang::Ja] {
        assert_eq!(l.toggled().toggled(), l);
    }
}

#[test]
fn lang_labels() {
    assert_eq!(Lang::En.label(), "EN");
    assert_eq!(Lang::Ja.label(), "JA");
}

#[test]
fn tf_substitutes_positionally() {
    assert_eq!(
        tf(Lang::En, Key::PromptTerminate, &["Debian"]),
        "Terminate (stop) 'Debian'?"
    );
    assert_eq!(
        tf(Lang::Ja, Key::PromptTerminate, &["Debian"]),
        "'Debian' を停止しますか？"
    );
}

#[test]
fn tf_handles_two_placeholders() {
    assert_eq!(
        tf(Lang::En, Key::ConfirmTypedLine, &["Debian", "Deb"]),
        "type \"Debian\" to confirm: Deb"
    );
}

#[test]
fn tf_extra_args_and_missing_args() {
    assert_eq!(tf(Lang::En, Key::DoneShutdown, &["x"]), "WSL shut down");
    assert_eq!(tf(Lang::En, Key::ConfirmTypedLine, &["a"]), "type \"a\" to confirm: {}");
}

#[test]
fn tf_argument_text_is_never_scanned_for_placeholders() {
    assert_eq!(
        tf(Lang::En, Key::ConfirmTypedLine, &["{}", "x"]),
        "type \"{}\" to confirm: x"
    );
    assert_eq!(
        tf(Lang::En, Key::ConfirmTypedLine, &["a{}b", "{}"]),
        "type \"a{}b\" to confirm: {}"
    );
}

#[test]
fn locale_picks_japanese_when_any_variable_names_it() {
    assert_eq!(lang_from_locale(&[None, None, None]), Lang::En);
    assert_eq!(lang_from_locale(&[Some("en_US.UTF-8".into()), None, None]), Lang::En);
    assert_eq!(lang_from_locale(&[Some("C".into()), Some("JA_JP".into()), None]), Lang::Ja);
    assert_eq!(lang_from_locale(&[None, None, Some("ja".into())]), Lang::Ja);
}
