use wsl_manager_tui::app::config_edit::{ConfigEditState, EditMode, RawEditor};
use wsl_manager_tui::config::{schema, ConfigTarget, IniDoc};

const SAMPLE: &str =
    "# global config\n[wsl2]\nmemory=8GB\nunknownKey=keepme\n\n[interop]\nenabled=true\n";

#[test]
fn round_trips_comments_and_unknown_keys() {
    let doc = IniDoc::parse(SAMPLE);
    assert_eq!(doc.render(), SAMPLE);
}

#[test]
fn gets_values_case_insensitively() {
    let doc = IniDoc::parse(SAMPLE);
    assert_eq!(doc.get("wsl2", "memory"), Some("8GB"));
    assert_eq!(doc.get("wsl2", "MEMORY"), Some("8GB"));
    assert_eq!(doc.get("interop", "enabled"), Some("true"));
    assert_eq!(doc.get("wsl2", "missing"), None);
}

#[test]
fn updates_existing_key_only() {
    let mut doc = IniDoc::parse(SAMPLE);
    doc.set("wsl2", "memory", "16GB");
    assert_eq!(doc.get("wsl2", "memory"), Some("16GB"));
    assert_eq!(doc.get("wsl2", "unknownKey"), Some("keepme"));
    assert!(doc.render().contains("# global config"));
}

#[test]
fn inserts_new_key_into_existing_section() {
    let mut doc = IniDoc::parse(SAMPLE);
    doc.set("wsl2", "swap", "0");
    let rendered = doc.render();
    let wsl2 = rendered.find("[wsl2]").unwrap();
    let swap = rendered.find("swap=0").unwrap();
    let interop = rendered.find("[interop]").unwrap();
    assert!(wsl2 < swap && swap < interop);
}

#[test]
fn creates_missing_section() {
    let mut doc = IniDoc::parse(SAMPLE);
    doc.set("user", "default", "me");
    let rendered = doc.render();
    assert!(rendered.contains("[user]"));
    assert_eq!(doc.get("user", "default"), Some("me"));
}

#[test]
fn empty_value_removes_key() {
    let mut doc = IniDoc::parse(SAMPLE);
    doc.set("wsl2", "memory", "");
    assert_eq!(doc.get("wsl2", "memory"), None);
    assert!(!doc.render().contains("memory="));
    assert_eq!(doc.get("wsl2", "unknownKey"), Some("keepme"));
}

#[test]
fn set_then_get_reads_back_trimmed_value() {
    let mut doc = IniDoc::parse(SAMPLE);
    doc.set("network", "hostname", "  box  ");
    assert_eq!(doc.get("network", "hostname"), Some("box"));
    assert_eq!(doc.get("wsl2", "memory"), Some("8GB"));
    assert_eq!(doc.get("interop", "enabled"), Some("true"));
}

#[test]
fn set_keeps_original_key_spelling() {
    let mut doc = IniDoc::parse(SAMPLE);
    doc.set("wsl2", "MEMORY", "4GB");
    assert!(doc.render().contains("memory=4GB"));
    assert!(!doc.render().contains("MEMORY"));
}

#[test]
fn schema_selects_by_target() {
    assert!(schema(&ConfigTarget::WslConfig).iter().any(|k| k.key == "memory"));
    assert!(schema(&ConfigTarget::WslConf("Debian".into()))
        .iter()
        .any(|k| k.section == "boot" && k.key == "systemd"));
}

#[test]
fn schema_sizes() {
    assert_eq!(schema(&ConfigTarget::WslConfig).len(), 7);
    assert_eq!(schema(&ConfigTarget::WslConf("x".into())).len(), 11);
}

#[test]
fn target_labels() {
    assert_eq!(ConfigTarget::WslConfig.label(), ".wslconfig (global)");
    assert_eq!(ConfigTarget::WslConf("Debian".into()).label(), "wsl.conf (Debian)");
}

const CONTENT: &str = "[wsl2]\nmemory=8GB\nunknownKey=keep\n";

#[test]
fn raw_editor_inserts_and_backspaces() {
    let mut editor = RawEditor::from_text("ab\n");
    editor.right();
    editor.insert('X');
    assert_eq!(editor.lines[0], "aXb");
    editor.backspace();
    assert_eq!(editor.lines[0], "ab");
}

#[test]
fn raw_editor_newline_splits_line() {
    let mut editor = RawEditor::from_text("abcd\n");
    editor.right();
    editor.right();
    editor.newline();
    assert_eq!(editor.lines, vec!["ab".to_string(), "cd".to_string()]);
}

#[test]
fn raw_editor_backspace_at_line_start_joins_lines() {
    let mut editor = RawEditor::from_text("ab\ncd\n");
    editor.down();
    assert_eq!((editor.row, editor.col), (1, 0));
    editor.backspace();
    assert_eq!(editor.lines, vec!["abcd".to_string()]);
    assert_eq!((editor.row, editor.col), (0, 2));
    assert_eq!(editor.text(), "abcd\n");
}

#[test]
fn raw_editor_cursor_wraps_and_clamps() {
    let mut editor = RawEditor::from_text("abc\nx\n");
    editor.right();
    editor.right();
    editor.right();
    editor.right();
    assert_eq!((editor.row, editor.col), (1, 0));
    editor.left();
    assert_eq!((editor.row, editor.col), (0, 3));
    editor.down();
    assert_eq!((editor.row, editor.col), (1, 1));
    editor.up();
    assert_eq!((editor.row, editor.col), (0, 1));
}

#[test]
fn raw_editor_empty_text_has_one_line() {
    let editor = RawEditor::from_text("");
    assert_eq!(editor.lines, vec![String::new()]);
    assert_eq!(editor.text(), "\n");
}

#[test]
fn form_prefills_from_doc() {
    let state = ConfigEditState::new(ConfigTarget::WslConfig, CONTENT);
    let memory = state.fields.iter().find(|f| f.key.key == "memory").unwrap();
    assert_eq!(memory.input.value, "8GB");
}

#[test]
fn rendered_form_preserves_unknown_keys() {
    let mut state = ConfigEditState::new(ConfigTarget::WslConfig, CONTENT);
    let memory = state.fields.iter_mut().find(|f| f.key.key == "memory").unwrap();
    memory.input.value = "16GB".to_string();
    let rendered = state.rendered();
    assert!(rendered.contains("memory=16GB"));
    assert!(rendered.contains("unknownKey=keep"));
}

#[test]
fn form_to_raw_to_form_round_trip() {
    let mut state = ConfigEditState::new(ConfigTarget::WslConfig, CONTENT);
    state.to_raw();
    assert_eq!(state.mode, EditMode::Raw);
    assert!(state.raw.text().contains("unknownKey=keep"));
    state.to_form();
    assert_eq!(state.mode, EditMode::Form);
    let memory = state.fields.iter().find(|f| f.key.key == "memory").unwrap();
    assert_eq!(memory.input.value, "8GB");
}

#[test]
fn config_focus_wraps_both_ways() {
    let mut state = ConfigEditState::new(ConfigTarget::WslConfig, CONTENT);
    state.focus_prev();
    assert_eq!(state.focus, 6);
    state.focus_next();
    assert_eq!(state.focus, 0);
    state.current_field_mut().unwrap().input.insert('z');
    assert_eq!(state.fields[0].input.value, "8GBz");
    state.current_field_mut().unwrap().input.backspace();
    assert_eq!(state.fields[0].input.value, "8GB");
    state.focus = state.fields.len();
    assert!(state.current_field_mut().is_none());
}

#[test]
fn form_raw_form_keeps_trimmed_edits_and_blanks() {
    let mut state = ConfigEditState::new(ConfigTarget::WslConfig, CONTENT);
    // Pad the first field's value with spaces, and blank out every other field.
    state.fields[0].input.value = "  12GB ".to_string();
    for field in state.fields.iter_mut().skip(1) {
        field.input.value.clear();
    }
    let keys: Vec<&str> = state.fields.iter().map(|f| f.key.key).collect();
    state.to_raw();
    state.to_form();
    let after: Vec<&str> = state.fields.iter().map(|f| f.key.key).collect();
    assert_eq!(keys, after);
    assert_eq!(state.fields[0].input.value, "12GB");
    for field in state.fields.iter().skip(1) {
        assert_eq!(field.input.value, "", "{} should stay blank", field.key.key);
    }
    // Unknown keys survive the round trip.
    assert!(state.rendered().contains("unknownKey=keep"));
}

#[test]
fn parse_of_render_gives_the_document_back() {
    let mut doc = IniDoc::parse("[wsl2]\nmemory=8GB\n");
    doc.set("boot", "command", "echo hi");
    let text = doc.render();
    assert_eq!(IniDoc::parse(&text).render(), text);
    assert_eq!(IniDoc::parse(&text).get("boot", "command"), Some("echo hi"));
}

#[test]
fn section_headers_are_kept_verbatim() {
    let text = "  [ wsl2 ]\n  memory = 8GB \n# c\n";
    let doc = IniDoc::parse(text);
    assert_eq!(doc.render(), "  [ wsl2 ]\nmemory=8GB\n# c\n");
    assert_eq!(doc.get("wsl2", "memory"), Some("8GB"));
    let mut doc = doc;
    doc.set("wsl2", "swap", "0");
    assert_eq!(doc.render(), "  [ wsl2 ]\nmemory=8GB\nswap=0\n# c\n");
    doc.set("boot", "systemd", "true");
    assert!(doc.render().ends_with("[boot]\nsystemd=true\n"));
}

#[test]
fn raw_editor_gives_back_newline_terminated_text() {
    for text in ["ab\n", "\n", "a\n\nb\n", "[wsl2]\nmemory=8GB\n"] {
        assert_eq!(RawEditor::from_text(text).text(), text);
    }
}

#[test]
fn to_raw_keeps_what_saving_writes() {
    let mut state = ConfigEditState::new(ConfigTarget::WslConfig, CONTENT);
    state.fields[0].input.value = " 10GB".to_string();
    let before = state.rendered();
    state.to_raw();
    assert_eq!(state.rendered(), before);
    assert_eq!((state.raw.row, state.raw.col), (0, 0));
}

#[test]
fn set_rewrites_only_the_entry_line() {
    let text = "# top\n[wsl2]\n  Memory = 8GB \nswap=0\n[boot]\nmemory=1\n";
    let mut doc = IniDoc::parse(text);
    let before = doc.render();
    doc.set("wsl2", "memory", " 16GB ");
    let after = doc.render();
    let b: Vec<&str> = before.lines().collect();
    let a: Vec<&str> = after.lines().collect();
    assert_eq!(a.len(), b.len());
    for (i, (x, y)) in b.iter().zip(a.iter()).enumerate() {
        if i == 2 {
            assert_eq!(*y, "Memory=16GB");
        } else {
            assert_eq!(x, y);
        }
    }
}
