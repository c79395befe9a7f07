use eigen_core::fsmodel::{FsAction, FsNode};
use eigen_core::storage::{
    cleanup_empty_dirs_plan, cleanup_versions, cleanup_versions_older_than_plan,
    cutoff_timestamp, get_version_storage_info, retention_result,
};
use eigen_core::versions::browse_versions;

fn file(name: &str, size: u64, modified: Option<u64>) -> FsNode {
    FsNode::File { name: name.to_string(), size, modified }
}

fn dir(name: &str, entries: Vec<FsNode>) -> FsNode {
    FsNode::Dir { name: name.to_string(), modified: Some(0), entries }
}

fn sample_tree() -> Vec<FsNode> {
    vec![
        file("a~20230101-000000.txt", 100, Some(1_000)),
        dir(
            "sub",
            vec![
                file("b~20230101-000000.txt", 200, Some(2_000)),
                dir("inner", vec![file("c~20230101-000000.txt", 300, Some(3_000))]),
            ],
        ),
    ]
}

#[test]
fn report_of_a_missing_versions_directory_is_zero_and_absent() {
    let report = get_version_storage_info(None);
    assert!(!report.exists);
    assert_eq!(report.total_bytes, 0);
    assert_eq!(report.file_count, 0);
    assert_eq!(report.total_formatted, "0 B");
}

#[test]
fn report_sums_sizes_and_counts_files_recursively() {
    let tree = sample_tree();
    let report = get_version_storage_info(Some(&tree));
    assert!(report.exists);
    assert_eq!(report.total_bytes, 600);
    assert_eq!(report.file_count, 3);
    assert_eq!(report.total_formatted, "600 B");
}

#[test]
fn cleanup_of_a_missing_versions_directory_succeeds_with_zero_counts() {
    let result = cleanup_versions(None, None);
    assert!(result.success);
    assert_eq!(result.files_deleted, 0);
    assert_eq!(result.bytes_freed, 0);
    assert_eq!(result.bytes_freed_formatted, "0 B");
    assert!(result.error.is_none());
}

#[test]
fn successful_cleanup_reports_the_snapshot_taken_before_deletion() {
    let tree = sample_tree();
    let result = cleanup_versions(Some(&tree), None);
    assert!(result.success);
    assert_eq!(result.files_deleted, 3);
    assert_eq!(result.bytes_freed, 600);
    assert_eq!(result.bytes_freed_formatted, "600 B");
    assert!(result.error.is_none());
}

#[test]
fn failed_cleanup_carries_the_error_and_zero_counts() {
    let tree = sample_tree();
    let result = cleanup_versions(Some(&tree), Some("permission denied"));
    assert!(!result.success);
    assert_eq!(result.files_deleted, 0);
    assert_eq!(result.bytes_freed, 0);
    assert_eq!(
        result.error,
        Some("Failed to delete versions: permission denied".to_string())
    );
}

#[test]
fn after_a_full_cleanup_the_tree_is_gone_from_every_view() {
    // Once the host has removed the versions directory, the next snapshot of
    // it is absent: the report says so and a listing is empty.
    let tree = sample_tree();
    let result = cleanup_versions(Some(&tree), None);
    assert!(result.success);
    let report_after = get_version_storage_info(None);
    assert!(!report_after.exists);
    assert!(browse_versions(None).is_empty());
}

#[test]
fn cutoff_subtracts_whole_days_and_floors_at_zero() {
    assert_eq!(cutoff_timestamp(1_000_000, 0), 1_000_000);
    assert_eq!(cutoff_timestamp(1_000_000, 1), 1_000_000 - 86_400);
    assert_eq!(cutoff_timestamp(100, 1), 0);
}

#[test]
fn age_based_plan_selects_strictly_older_files_only() {
    let now = 10_000;
    let tree = vec![
        file("old~20230101-000000.txt", 100, Some(now - 1)),
        file("same_instant~20230101-000000.txt", 200, Some(now)),
        file("newer~20230101-000000.txt", 300, Some(now + 1)),
        file("untimed.txt", 400, None),
        dir("sub", vec![file("deep~20230101-000000.txt", 500, Some(now - 2))]),
    ];
    let cutoff = cutoff_timestamp(now, 0);
    assert_eq!(cutoff, now);
    let plan = cleanup_versions_older_than_plan(Some(&tree), cutoff);
    assert_eq!(plan.len(), 2);
    assert_eq!(plan[0].0, "old~20230101-000000.txt");
    assert_eq!(plan[0].1, 100);
    assert_eq!(plan[1].0, "sub/deep~20230101-000000.txt");
    assert_eq!(plan[1].1, 500);
}

#[test]
fn age_based_plan_for_a_missing_directory_is_empty() {
    let plan = cleanup_versions_older_than_plan(None, 12345);
    assert!(plan.is_empty());
}

#[test]
fn retention_result_tallies_what_was_actually_deleted() {
    let deleted = vec![
        ("old~20230101-000000.txt".to_string(), 100u64),
        ("sub/deep~20230101-000000.txt".to_string(), 500u64),
    ];
    let result = retention_result(&deleted);
    assert!(result.success);
    assert_eq!(result.files_deleted, 2);
    assert_eq!(result.bytes_freed, 600);
    assert_eq!(result.bytes_freed_formatted, "600 B");
    assert!(result.error.is_none());

    let empty = retention_result(&Vec::new());
    assert_eq!(empty.files_deleted, 0);
    assert_eq!(empty.bytes_freed, 0);
    assert_eq!(empty.bytes_freed_formatted, "0 B");
}

#[test]
fn empty_directory_sweep_lists_children_before_parents_and_root_last() {
    let tree = sample_tree();
    let plan = cleanup_empty_dirs_plan("/folder/.stversions", &tree);
    let paths: Vec<&str> = plan
        .iter()
        .map(|a| match a {
            FsAction::RemoveDirIfEmpty { path } => path.as_str(),
            _ => panic!("expected only remove-if-empty actions"),
        })
        .collect();
    assert_eq!(
        paths,
        vec![
            "/folder/.stversions/sub/inner",
            "/folder/.stversions/sub",
            "/folder/.stversions",
        ]
    );
}
