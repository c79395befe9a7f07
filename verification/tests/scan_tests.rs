use eigen_core::conflicts::{
    delete_conflict_file, resolve_conflict_keep_conflict, scan_for_conflicts,
};
use eigen_core::fsmodel::{FsAction, FsNode};

fn file(name: &str, size: u64, modified: Option<u64>) -> FsNode {
    FsNode::File { name: name.to_string(), size, modified }
}

fn dir(name: &str, entries: Vec<FsNode>) -> FsNode {
    FsNode::Dir { name: name.to_string(), modified: Some(0), entries }
}

#[test]
fn scanning_a_missing_folder_yields_an_empty_list() {
    let records = scan_for_conflicts(None);
    assert!(records.is_empty());
}

#[test]
fn scanning_an_empty_folder_yields_an_empty_list() {
    let records = scan_for_conflicts(Some(&Vec::new()));
    assert!(records.is_empty());
}

#[test]
fn scan_reports_conflicts_with_relative_paths() {
    let tree = vec![
        file("keep.txt", 10, Some(100)),
        file("report.sync-conflict-20231201-120000-ABCDEFG.txt", 42, Some(200)),
        dir(
            "sub",
            vec![file("notes.sync-conflict-20230101-000000-HIJKLMN.md", 7, None)],
        ),
    ];
    let records = scan_for_conflicts(Some(&tree));
    assert_eq!(records.len(), 2);
    assert_eq!(
        records[0].relative_path,
        "report.sync-conflict-20231201-120000-ABCDEFG.txt"
    );
    assert_eq!(records[0].inferred_original_name, "report.txt");
    assert_eq!(records[0].size_bytes, 42);
    assert_eq!(records[0].modified_at, Some(200));
    assert_eq!(
        records[1].relative_path,
        "sub/notes.sync-conflict-20230101-000000-HIJKLMN.md"
    );
    assert_eq!(records[1].inferred_original_name, "notes.md");
    assert_eq!(records[1].size_bytes, 7);
    assert_eq!(records[1].modified_at, None);
}

#[test]
fn scan_skips_hidden_and_versions_directories() {
    let tree = vec![
        dir(
            ".stversions",
            vec![file("x.sync-conflict-20230101-000000-AAAAAAA.txt", 1, Some(1))],
        ),
        dir(
            ".hidden",
            vec![file("y.sync-conflict-20230101-000000-AAAAAAA.txt", 1, Some(1))],
        ),
        dir(
            "visible",
            vec![file("z.sync-conflict-20230101-000000-AAAAAAA.txt", 3, Some(3))],
        ),
    ];
    let records = scan_for_conflicts(Some(&tree));
    assert_eq!(records.len(), 1);
    assert_eq!(
        records[0].relative_path,
        "visible/z.sync-conflict-20230101-000000-AAAAAAA.txt"
    );
}

#[test]
fn scan_skips_hidden_conflict_files() {
    let tree = vec![
        file(".a.sync-conflict-20230101-000000-AAAAAAA.txt", 1, Some(1)),
        file("b.sync-conflict-20230101-000000-AAAAAAA.txt", 2, Some(2)),
        dir(
            "sub",
            vec![file(".c.sync-conflict-20230101-000000-AAAAAAA.txt", 3, Some(3))],
        ),
    ];
    let records = scan_for_conflicts(Some(&tree));
    assert_eq!(records.len(), 1);
    assert_eq!(
        records[0].relative_path,
        "b.sync-conflict-20230101-000000-AAAAAAA.txt"
    );
}

#[test]
fn discard_plans_a_delete_only_when_the_file_exists() {
    let action = delete_conflict_file("/folder", "a.sync-conflict-X.txt", true);
    match action {
        Some(FsAction::RemoveFile { path }) => {
            assert_eq!(path, "/folder/a.sync-conflict-X.txt");
        }
        _ => panic!("expected a remove action"),
    }
    assert!(delete_conflict_file("/folder", "a.sync-conflict-X.txt", false).is_none());
}

#[test]
fn promote_with_both_files_deletes_then_renames() {
    let plan = resolve_conflict_keep_conflict(
        "/folder",
        "a.txt",
        "a.sync-conflict-X.txt",
        true,
        true,
    );
    assert_eq!(plan.len(), 2);
    match &plan[0] {
        FsAction::RemoveFile { path } => assert_eq!(path, "/folder/a.txt"),
        _ => panic!("expected a remove action first"),
    }
    match &plan[1] {
        FsAction::Rename { from, to } => {
            assert_eq!(from, "/folder/a.sync-conflict-X.txt");
            assert_eq!(to, "/folder/a.txt");
        }
        _ => panic!("expected a rename action second"),
    }
}

#[test]
fn promote_with_only_the_conflict_file_renames_it_into_place() {
    let plan = resolve_conflict_keep_conflict(
        "/folder",
        "a.txt",
        "a.sync-conflict-X.txt",
        false,
        true,
    );
    assert_eq!(plan.len(), 1);
    match &plan[0] {
        FsAction::Rename { from, to } => {
            assert_eq!(from, "/folder/a.sync-conflict-X.txt");
            assert_eq!(to, "/folder/a.txt");
        }
        _ => panic!("expected a rename action"),
    }
}

#[test]
fn promote_with_neither_file_succeeds_vacuously() {
    let plan = resolve_conflict_keep_conflict("/folder", "a.txt", "a.conf", false, false);
    assert!(plan.is_empty());
}
