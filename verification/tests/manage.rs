use wsl_manager_tui::manage::{
    archives_newest_first, derive_distro_name, export_candidate, export_filename, exports_dir,
    exports_listing, installed_dir,
    is_archive, is_vhd_archive, sanitize_name, ExportCandidate, ExportFormat,
};

#[test]
fn export_format_from_extension() {
    assert_eq!(ExportFormat::from_filename("a.tar"), ExportFormat::Tar);
    assert_eq!(ExportFormat::from_filename("a.TAR.GZ"), ExportFormat::TarGz);
    assert_eq!(ExportFormat::from_filename("a.tgz"), ExportFormat::TarGz);
    assert_eq!(ExportFormat::from_filename("a.tar.xz"), ExportFormat::TarXz);
    assert_eq!(ExportFormat::from_filename("a.vhdx"), ExportFormat::Vhd);
    assert_eq!(ExportFormat::from_filename("a.bak"), ExportFormat::Tar);
}

#[test]
fn export_format_wsl_arg() {
    assert_eq!(ExportFormat::Tar.wsl_format_arg(), None);
    assert_eq!(ExportFormat::TarGz.wsl_format_arg(), Some("tar.gz"));
    assert_eq!(ExportFormat::Vhd.wsl_format_arg(), Some("vhd"));
    assert_eq!(ExportFormat::TarXz.wsl_format_arg(), Some("tar.xz"));
}

#[test]
fn vhd_detection() {
    assert!(is_vhd_archive("x.vhdx"));
    assert!(is_vhd_archive("X.VHD"));
    assert!(!is_vhd_archive("x.tar.gz"));
}

#[test]
fn paths_compose() {
    let root = r"C:\wsl";
    assert_eq!(exports_dir(root), r"C:\wsl\exports");
    assert_eq!(installed_dir(root, "My/Distro"), r"C:\wsl\installed\My_Distro");
}

#[test]
fn paths_compose_with_trailing_separator() {
    assert_eq!(exports_dir(r"C:\wsl\"), r"C:\wsl\exports");
    assert_eq!(exports_dir(""), "exports");
}

#[test]
fn export_filename_uses_timestamp() {
    assert_eq!(export_filename("Ubuntu", "20260607-153012"), "Ubuntu-20260607-153012.tar");
}

#[test]
fn derive_name_strips_archive_extension() {
    assert_eq!(derive_distro_name("Ubuntu-20260607.tar.gz"), "Ubuntu-20260607");
    assert_eq!(derive_distro_name("Debian.tar"), "Debian");
    assert_eq!(derive_distro_name("box.vhdx"), "box");
    assert_eq!(derive_distro_name("noext"), "noext");
}

#[test]
fn sanitize_replaces_illegal_chars() {
    assert_eq!(sanitize_name("a:b/c"), "a_b_c");
    assert_eq!(sanitize_name("  x*y  "), "x_y");
}

#[test]
fn archive_names() {
    assert!(is_archive("a.tar"));
    assert!(is_archive("B.TGZ"));
    assert!(is_archive("c.vhd"));
    assert!(!is_archive("notes.txt"));
}

fn cand(name: &str, is_file: bool, modified: Option<u64>) -> ExportCandidate {
    ExportCandidate {
        name: name.to_string(),
        path: format!(r"C:\wsl\exports\{name}"),
        size: name.len() as u64,
        is_file,
        modified,
    }
}

#[test]
fn listing_keeps_archives_newest_first() {
    let found = vec![
        cand("a.tar", true, Some(10)),
        cand("notes.txt", true, Some(50)),
        cand("b.tar.gz", true, Some(30)),
        cand("dir.tar", false, Some(40)),
        cand("c.vhdx", true, None),
        cand("d.tar.xz", true, Some(30)),
    ];
    let names: Vec<String> = archives_newest_first(found).into_iter().map(|a| a.name).collect();
    assert_eq!(names, ["b.tar.gz", "d.tar.xz", "a.tar", "c.vhdx"]);
}

#[test]
fn listing_of_nothing_is_empty() {
    assert!(archives_newest_first(Vec::new()).is_empty());
    assert!(archives_newest_first(vec![cand("x.txt", true, Some(1))]).is_empty());
}

#[test]
fn absolute_parts_replace_the_base() {
    assert_eq!(installed_dir(r"C:\wsl", "D:\\x"), r"C:\wsl\installed\D__x");
    assert_eq!(installed_dir("", "Deb"), r"installed\Deb");
    assert_eq!(exports_dir(r"C:\wsl"), r"C:\wsl\exports");
    assert_eq!(exports_dir(""), "exports");
    assert_eq!(exports_dir(r"C:\wsl\"), r"C:\wsl\exports");
    // A bare drive takes the part without a separator, as `Path::join` does.
    assert_eq!(exports_dir("C:"), "C:exports");
    assert_eq!(exports_dir(r"\\nas\share"), r"\\nas\share\exports");
}

#[test]
fn sanitize_is_idempotent_and_legal() {
    for name in ["  a<b>:c|d?*  ", "Ubuntu 24.04", "\u{1}x\u{7f}", "ok"] {
        let once = sanitize_name(name);
        assert_eq!(sanitize_name(&once), once);
        assert!(!once.chars().any(|c| "<>:\"/\\|?*".contains(c) || c.is_control()));
    }
}

#[test]
fn exports_listing_builds_paths_filters_and_sorts() {
    assert!(exports_listing(None).is_empty());
    let found = vec![
        export_candidate(r"C:\wsl", "old.tar".to_string(), 1, true, Some(10)),
        export_candidate(r"C:\wsl", "notes.txt".to_string(), 2, true, Some(30)),
        export_candidate(r"C:\wsl", "dir.tar".to_string(), 3, false, Some(40)),
        export_candidate(r"C:\wsl", "new.vhdx".to_string(), 4, true, Some(20)),
    ];
    let listed = exports_listing(Some(found));
    let names: Vec<&str> = listed.iter().map(|a| a.name.as_str()).collect();
    assert_eq!(names, ["new.vhdx", "old.tar"]);
    assert_eq!(listed[0].path, r"C:\wsl\exports\new.vhdx");
    assert_eq!(listed[1].size, 1);
}
