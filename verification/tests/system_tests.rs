use eigen_core::system::{check_syncthing_installation, first_line};

#[test]
fn first_line_handles_newlines_and_carriage_returns() {
    assert_eq!(first_line(""), None);
    assert_eq!(first_line("one line"), Some("one line".to_string()));
    assert_eq!(
        first_line("syncthing v1.27.0\nmore text"),
        Some("syncthing v1.27.0".to_string())
    );
    assert_eq!(first_line("win\r\nrest"), Some("win".to_string()));
    assert_eq!(first_line("\nrest"), Some("".to_string()));
}

#[test]
fn a_successful_probe_reports_the_version_and_path() {
    let info = check_syncthing_installation(
        Some("syncthing v1.27.0 \"Gold Grasshopper\"\n(extra)"),
        Some("/usr/bin/syncthing".to_string()),
    );
    assert!(info.installed);
    assert!(!info.bundled);
    assert_eq!(
        info.version,
        Some("syncthing v1.27.0 \"Gold Grasshopper\"".to_string())
    );
    assert_eq!(info.path, Some("/usr/bin/syncthing".to_string()));
}

#[test]
fn a_failed_probe_falls_back_to_the_bundled_sidecar() {
    let info = check_syncthing_installation(None, None);
    assert!(info.installed);
    assert!(info.bundled);
    assert_eq!(info.version, Some("bundled".to_string()));
    assert_eq!(info.path, Some("bundled sidecar".to_string()));
}
