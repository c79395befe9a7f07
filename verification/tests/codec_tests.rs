use eigen_core::codec::{extract_original_filename, has_conflict_marker, parse_version_filename};

#[test]
fn conflict_name_without_marker_is_unchanged() {
    assert_eq!(extract_original_filename("report.txt"), "report.txt");
    assert_eq!(extract_original_filename(""), "");
    assert_eq!(extract_original_filename("weird~name.tar.gz"), "weird~name.tar.gz");
}

#[test]
fn conflict_name_decodes_with_extension() {
    assert_eq!(
        extract_original_filename("report.sync-conflict-20231201-120000-ABCDEFG.txt"),
        "report.txt"
    );
}

#[test]
fn conflict_decode_uses_last_dot() {
    assert_eq!(extract_original_filename("a.sync-conflict-X.tar.gz"), "a.gz");
}

#[test]
fn conflict_decode_without_dot_after_marker_start_keeps_name() {
    // The marker itself starts with a dot, so the "extension" found by the
    // last-dot rule is the whole remainder and the name survives unchanged.
    assert_eq!(extract_original_filename("a.sync-conflict-X"), "a.sync-conflict-X");
}

#[test]
fn conflict_marker_detection() {
    assert!(has_conflict_marker("a.sync-conflict-20231201-120000-ABCDEFG.txt"));
    assert!(!has_conflict_marker("a.sync-conflict.txt"));
    assert!(!has_conflict_marker("ordinary.txt"));
}

#[test]
fn version_name_without_tilde_is_unchanged() {
    assert_eq!(parse_version_filename("document.pdf"), ("document.pdf".to_string(), None));
    assert_eq!(parse_version_filename(""), ("".to_string(), None));
}

#[test]
fn version_name_with_valid_stamp_decodes() {
    assert_eq!(
        parse_version_filename("document~20231215-143022.pdf"),
        ("document.pdf".to_string(), Some("2023-12-15 14:30:22".to_string()))
    );
}

#[test]
fn version_name_with_short_stamp_is_not_stripped() {
    assert_eq!(
        parse_version_filename("document~2023121-143022.pdf"),
        ("document~2023121-143022.pdf".to_string(), None)
    );
}

#[test]
fn version_name_without_extension_decodes() {
    assert_eq!(
        parse_version_filename("noext~20231215-143022"),
        ("noext".to_string(), Some("2023-12-15 14:30:22".to_string()))
    );
}

#[test]
fn version_name_with_misplaced_dash_is_not_stripped() {
    assert_eq!(
        parse_version_filename("doc~202312151-43022.pdf"),
        ("doc~202312151-43022.pdf".to_string(), None)
    );
}

#[test]
fn version_name_splits_at_last_tilde() {
    assert_eq!(
        parse_version_filename("a~b~20231215-143022.txt"),
        ("a~b.txt".to_string(), Some("2023-12-15 14:30:22".to_string()))
    );
}

#[test]
fn version_name_uses_first_dot_of_remainder() {
    assert_eq!(
        parse_version_filename("archive~20231215-143022.tar.gz"),
        ("archive.tar.gz".to_string(), Some("2023-12-15 14:30:22".to_string()))
    );
}
