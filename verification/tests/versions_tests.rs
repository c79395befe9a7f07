use eigen_core::errors::ErrorKind;
use eigen_core::fsmodel::{FsAction, FsNode};
use eigen_core::versions::{browse_versions, restore_version, EntryType};

fn file(name: &str, size: u64, modified: Option<u64>) -> FsNode {
    FsNode::File { name: name.to_string(), size, modified }
}

fn dir(name: &str, modified: Option<u64>) -> FsNode {
    FsNode::Dir { name: name.to_string(), modified, entries: Vec::new() }
}

#[test]
fn browsing_a_missing_versions_path_yields_an_empty_list() {
    let entries = browse_versions(None);
    assert!(entries.is_empty());
}

#[test]
fn browse_decodes_files_and_keeps_directory_names() {
    let children = vec![
        file("document~20231215-143022.pdf", 42, Some(50)),
        dir("sub", Some(10)),
    ];
    let entries = browse_versions(Some(&children));
    assert_eq!(entries.len(), 2);
    // The directory sorts first.
    assert_eq!(entries[0].file_name, "sub");
    assert_eq!(entries[0].original_name, "sub");
    assert_eq!(entries[0].entry_type, EntryType::Directory);
    assert_eq!(entries[0].size_bytes, None);
    assert_eq!(entries[0].version_timestamp, None);
    assert_eq!(entries[1].file_name, "document~20231215-143022.pdf");
    assert_eq!(entries[1].original_name, "document.pdf");
    assert_eq!(entries[1].entry_type, EntryType::File);
    assert_eq!(entries[1].size_bytes, Some(42));
    assert_eq!(entries[1].modified_at, Some(50));
    assert_eq!(
        entries[1].version_timestamp,
        Some("2023-12-15 14:30:22".to_string())
    );
}

#[test]
fn browse_orders_directories_first_then_newest_first() {
    let children = vec![
        file("old~20200101-000000.txt", 1, Some(100)),
        file("new~20230101-000000.txt", 1, Some(300)),
        file("untimed.txt", 1, None),
        dir("older_dir", Some(5)),
        dir("newer_dir", Some(9)),
        file("mid~20220101-000000.txt", 1, Some(200)),
    ];
    let entries = browse_versions(Some(&children));
    let names: Vec<&str> = entries.iter().map(|e| e.file_name.as_str()).collect();
    assert_eq!(
        names,
        vec![
            "newer_dir",
            "older_dir",
            "new~20230101-000000.txt",
            "mid~20220101-000000.txt",
            "old~20200101-000000.txt",
            "untimed.txt",
        ]
    );
}

#[test]
fn browse_treats_malformed_stamps_as_plain_names() {
    let children = vec![file("doc~2023121-143022.pdf", 3, Some(1))];
    let entries = browse_versions(Some(&children));
    assert_eq!(entries[0].original_name, "doc~2023121-143022.pdf");
    assert_eq!(entries[0].version_timestamp, None);
}

#[test]
fn restore_fails_with_not_found_when_the_source_is_missing() {
    let r = restore_version("/folder", "doc~20231215-143022.pdf", "doc.pdf", false, false, false);
    let e = r.err().expect("restore should fail");
    assert_eq!(e.kind, ErrorKind::NotFound);
    assert_eq!(e.message, "Version file not found");
    assert_eq!(e.context, Some("doc~20231215-143022.pdf".to_string()));
    assert!(!e.recoverable);
}

#[test]
fn restore_fails_with_already_exists_without_overwrite() {
    let r = restore_version("/folder", "doc~20231215-143022.pdf", "doc.pdf", true, true, false);
    let e = r.err().expect("restore should fail");
    assert_eq!(e.kind, ErrorKind::AlreadyExists);
    assert_eq!(e.message, "Destination file already exists");
    assert_eq!(e.context, Some("doc.pdf".to_string()));
    assert!(!e.recoverable);
    assert_eq!(
        e.recovery_hint,
        Some("Set overwrite=true to replace the existing file".to_string())
    );
}

#[test]
fn restore_with_overwrite_plans_a_copy() {
    let r = restore_version("/folder", "doc~20231215-143022.pdf", "doc.pdf", true, true, true);
    match r.ok().expect("restore should succeed") {
        FsAction::CopyFile { from, to } => {
            assert_eq!(from, "/folder/.stversions/doc~20231215-143022.pdf");
            assert_eq!(to, "/folder/doc.pdf");
        }
        _ => panic!("expected a copy action"),
    }
}

#[test]
fn restore_to_a_fresh_destination_plans_a_copy() {
    let r = restore_version("/folder", "sub/doc~20231215-143022.pdf", "sub/doc.pdf", true, false, false);
    match r.ok().expect("restore should succeed") {
        FsAction::CopyFile { from, to } => {
            assert_eq!(from, "/folder/.stversions/sub/doc~20231215-143022.pdf");
            assert_eq!(to, "/folder/sub/doc.pdf");
        }
        _ => panic!("expected a copy action"),
    }
}
