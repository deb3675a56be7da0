use wsl_manager_tui::registry::{strip_unc_prefix, vhd_path_of, LxssEntry};
use wsl_manager_tui::wsl::{
    collect_distros, decode_utf8, decode_wsl_output, parse_df, parse_df_kib, parse_list_online,
    parse_list_verbose, parse_meminfo_kib, parse_meminfo_total, parse_running, DistroState, RawDistroRow,
};

const EN: &str = "  NAME            STATE           VERSION\r\n\
* Debian          Running         2\r\n\
  Ubuntu-24.04    Stopped         2\r\n";

const JA: &str = "  名前            状態            バージョン\r\n\
* Debian          実行中          2\r\n\
  Ubuntu-24.04    停止            2\r\n";

#[test]
fn parses_english() {
    let rows = parse_list_verbose(EN);
    assert_eq!(rows.len(), 2);
    assert_eq!(rows[0].name, "Debian");
    assert_eq!(rows[0].version, 2);
    assert!(rows[0].is_default);
    assert_eq!(rows[1].name, "Ubuntu-24.04");
    assert!(!rows[1].is_default);
}

#[test]
fn parses_japanese_identically() {
    let rows = parse_list_verbose(JA);
    assert_eq!(rows.len(), 2);
    assert_eq!(rows[0].name, "Debian");
    assert!(rows[0].is_default);
    assert_eq!(rows[1].name, "Ubuntu-24.04");
    assert!(!rows[1].is_default);
}

#[test]
fn skips_header_and_blanks() {
    let rows = parse_list_verbose("  NAME  STATE  VERSION\r\n\r\n");
    assert!(rows.is_empty());
}

#[test]
fn handles_empty_input() {
    assert!(parse_list_verbose("").is_empty());
}

const ONLINE: &str = "The following is a list of valid distributions that can be installed.\r\n\
Install using 'wsl.exe --install <Distro>'.\r\n\
\r\n\
NAME                   FRIENDLY NAME\r\n\
Ubuntu                 Ubuntu\r\n\
Debian                 Debian GNU/Linux\r\n\
kali-linux             Kali Linux Rolling\r\n\
Ubuntu-24.04           Ubuntu 24.04 LTS\r\n";

#[test]
fn parses_online_list_skipping_prose_and_header() {
    let items = parse_list_online(ONLINE);
    let names: Vec<&str> = items.iter().map(|d| d.name.as_str()).collect();
    assert_eq!(names, ["Ubuntu", "Debian", "kali-linux", "Ubuntu-24.04"]);
    assert_eq!(items[1].friendly, "Debian GNU/Linux");
}

#[test]
fn online_list_handles_empty() {
    assert!(parse_list_online("").is_empty());
}

const ONLINE_JA_PROSE: &str =
    "インストールできる有効なディストリビューションの一覧を次に示します。\r\n\
'wsl.exe --install <Distro>' を使用してインストールします。\r\n\
\r\n\
NAME                   FRIENDLY NAME\r\n\
Ubuntu                 Ubuntu\r\n\
Debian                 Debian GNU/Linux\r\n";

#[test]
fn parses_online_list_with_localized_prose() {
    let items = parse_list_online(ONLINE_JA_PROSE);
    let names: Vec<&str> = items.iter().map(|d| d.name.as_str()).collect();
    assert_eq!(names, ["Ubuntu", "Debian"]);
}

#[test]
fn parses_df_output() {
    let df = "Filesystem     1024-blocks    Used Available Capacity Mounted on\n\
/dev/sdc            1000000  250000    750000      25% /\n";
    assert_eq!(parse_df(df), Some((250000 * 1024, 1000000 * 1024)));
}

#[test]
fn parse_df_handles_garbage() {
    assert_eq!(parse_df(""), None);
    assert_eq!(parse_df("not a df output\n"), None);
}

#[test]
fn parses_meminfo_total() {
    let meminfo = "MemTotal:       16384000 kB\n\
MemFree:         8000000 kB\n\
MemAvailable:   12000000 kB\n";
    assert_eq!(parse_meminfo_total(meminfo), Some(16_384_000 * 1024));
}

#[test]
fn parse_meminfo_total_handles_garbage() {
    assert_eq!(parse_meminfo_total(""), None);
    assert_eq!(parse_meminfo_total("MemFree: 100 kB\n"), None);
    assert_eq!(parse_meminfo_total("MemTotal: notanumber kB\n"), None);
}

#[test]
fn kib_parsers_report_figures_too_large_for_bytes() {
    let huge = "Filesystem 1024-blocks Used Available Capacity Mounted on\n\
/dev/sdc 18446744073709551615 18446744073709551615 0 100% /\n";
    assert_eq!(parse_df_kib(huge), Some((u64::MAX, u64::MAX)));
    assert_eq!(
        parse_meminfo_kib("MemTotal: 18446744073709551615 kB\n"),
        Some(u64::MAX)
    );
}

#[test]
fn df_skips_lines_without_numbers() {
    let df = "Filesystem 1024-blocks Used Available Capacity Mounted on\n\
overlay - - - - /\n\
/dev/sdc 2000 500 1500 25% /\n";
    assert_eq!(parse_df_kib(df), Some((500, 2000)));
    assert_eq!(parse_df(df), Some((500 * 1024, 2000 * 1024)));
    // The header line is never read as data.
    assert_eq!(parse_df_kib("x 10 20 30\n"), None);
}

#[test]
fn meminfo_uses_first_memtotal_line() {
    assert_eq!(parse_meminfo_kib("MemFree: 1 kB\nMemTotal: 42 kB\nMemTotal: 7 kB\n"), Some(42));
    assert_eq!(parse_meminfo_kib("MemTotal:\nMemTotal: 7 kB\n"), None);
}

#[test]
fn parses_running_names() {
    assert_eq!(parse_running("Debian\r\n  Ubuntu  \r\n\r\n"), vec!["Debian", "Ubuntu"]);
    assert!(parse_running("").is_empty());
}

fn utf16le_with_bom(s: &str) -> Vec<u8> {
    let mut v = vec![0xFF, 0xFE];
    for u in s.encode_utf16() {
        v.extend_from_slice(&u.to_le_bytes());
    }
    v
}

fn utf16le_no_bom(s: &str) -> Vec<u8> {
    let mut v = Vec::new();
    for u in s.encode_utf16() {
        v.extend_from_slice(&u.to_le_bytes());
    }
    v
}

#[test]
fn decodes_utf16le_with_bom() {
    let bytes = utf16le_with_bom("  NAME  STATE\r\n* Debian  Running  2\r\n");
    let s = decode_wsl_output(&bytes);
    assert!(s.contains("Debian"));
    assert!(s.contains("NAME"));
}

#[test]
fn decodes_utf16le_without_bom() {
    let bytes = utf16le_no_bom("Ubuntu");
    assert_eq!(decode_wsl_output(&bytes), "Ubuntu");
}

#[test]
fn falls_back_to_utf8() {
    assert_eq!(decode_wsl_output(b"plain ascii"), "plain ascii");
}

#[test]
fn decodes_localized_state() {
    let bytes = utf16le_with_bom("  名前  状態  バージョン\r\n* Debian  実行中  2\r\n");
    let s = decode_wsl_output(&bytes);
    assert!(s.contains("実行中"));
    assert!(s.contains("Debian"));
}

#[test]
fn decodes_bomless_utf16_starting_with_non_ascii() {
    let bytes = utf16le_no_bom(
        "インストールできる有効なディストリビューションの一覧を次に示します。\r\n\
\r\n\
NAME            FRIENDLY NAME\r\n\
Ubuntu          Ubuntu\r\n\
Debian          Debian GNU/Linux\r\n",
    );
    let decoded = decode_wsl_output(&bytes);
    assert!(decoded.contains("Ubuntu"), "expected Ubuntu, got: {decoded:?}");
    assert!(decoded.contains("FRIENDLY NAME"));
    assert!(!decoded.contains('\u{FFFD}'), "should be decoded as UTF-16: {decoded:?}");
}

#[test]
fn decode_utf8_replaces_invalid_bytes() {
    assert_eq!(decode_utf8(b"ok"), "ok");
    assert_eq!(decode_utf8(&[b'a', 0xFF, b'b']), "a\u{FFFD}b");
    assert_eq!(decode_utf8("日本".as_bytes()), "日本");
}

#[test]
fn decodes_utf16_surrogate_pairs_and_lone_surrogates() {
    let bytes = utf16le_with_bom("a😀b");
    assert_eq!(decode_wsl_output(&bytes), "a😀b");
    let lone = vec![0xFF, 0xFE, 0x3D, 0xD8, 0x61, 0x00];
    assert_eq!(decode_wsl_output(&lone), "\u{FFFD}a");
}

fn entry(name: &str) -> LxssEntry {
    LxssEntry {
        guid: format!("{{guid-{name}}}"),
        name: name.to_string(),
        base_path: format!("C:\\wsl\\{name}"),
        version: 2,
        state: 1,
        default_uid: 1000,
        flags: 15,
        vhd_file: Some("ext4.vhdx".to_string()),
        flavor: None,
    }
}

fn row(name: &str, is_default: bool) -> RawDistroRow {
    RawDistroRow { name: name.to_string(), version: 2, is_default }
}

#[test]
fn merges_running_state_locale_independent() {
    let rows = vec![row("Debian", true), row("Ubuntu", false)];
    let running = vec!["Debian".to_string()];
    let lxss = vec![entry("Debian"), entry("Ubuntu")];
    let distros = collect_distros(rows, &running, &lxss);
    assert_eq!(distros[0].state, DistroState::Running);
    assert_eq!(distros[1].state, DistroState::Stopped);
    assert_eq!(distros[0].guid.as_deref(), Some("{guid-Debian}"));
    assert_eq!(distros[0].vhd_path.as_deref(), Some("C:\\wsl\\Debian\\ext4.vhdx"));
    assert!(distros[0].is_default);
}

#[test]
fn distro_without_registry_entry_has_no_paths() {
    let distros = collect_distros(vec![row("Orphan", false)], &[], &[]);
    assert_eq!(distros[0].state, DistroState::Stopped);
    assert!(distros[0].vhd_path.is_none());
    assert!(distros[0].base_path.is_none());
}

#[test]
fn vhd_path_joins_base_and_file() {
    let entry = LxssEntry {
        guid: "{g}".into(),
        name: "Debian".into(),
        base_path: "C:\\wsl\\Debian".into(),
        version: 2,
        state: 1,
        default_uid: 1000,
        flags: 15,
        vhd_file: Some("ext4.vhdx".into()),
        flavor: None,
    };
    assert_eq!(vhd_path_of(&entry), Some("C:\\wsl\\Debian\\ext4.vhdx".to_string()));
}

#[test]
fn vhd_path_none_without_base() {
    let entry = LxssEntry {
        guid: "{g}".into(),
        name: "X".into(),
        base_path: String::new(),
        version: 2,
        state: 0,
        default_uid: 0,
        flags: 0,
        vhd_file: None,
        flavor: None,
    };
    assert_eq!(vhd_path_of(&entry), None);
}

#[test]
fn vhd_path_defaults_file_name() {
    let mut e = entry("Alpine");
    e.vhd_file = None;
    assert_eq!(vhd_path_of(&e), Some("C:\\wsl\\Alpine\\ext4.vhdx".to_string()));
}

#[test]
fn strips_long_path_prefix() {
    assert_eq!(strip_unc_prefix(r"\\?\C:\wsl".into()), r"C:\wsl");
    assert_eq!(strip_unc_prefix(r"C:\wsl".into()), r"C:\wsl");
}

#[test]
fn state_glyphs() {
    assert_eq!(DistroState::Running.glyph(), '●');
    assert_eq!(DistroState::Stopped.glyph(), '○');
    assert_eq!(DistroState::Installing.glyph(), '◐');
    assert_eq!(DistroState::Unknown.glyph(), '?');
}

#[test]
fn utf16_output_decodes_back_with_and_without_bom() {
    for s in ["こんにちは Ubuntu", "Debian", "絵文字 \u{1F600} ok"] {
        let u: Vec<u8> = s.encode_utf16().flat_map(|w| w.to_le_bytes()).collect();
        let mut b = vec![0xFF, 0xFE];
        b.extend_from_slice(&u);
        assert_eq!(decode_wsl_output(&b), s);
        assert_eq!(decode_wsl_output(&u), s);
    }
    assert_eq!(decode_wsl_output(b"plain ascii"), "plain ascii");
}
