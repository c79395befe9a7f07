//! Storage accounting and retention pruning for the versions directory.
//!
//! Reports aggregate the snapshot of the versions tree; cleanups are planned
//! as file and directory lists for the host to execute, and the outcome the
//! host reports back is tallied into a display-ready result.

use vstd::prelude::*;
use crate::format::{format_bytes, formatted_bytes};
use crate::fsmodel::{
    actions_view, calculate_dir_size, forest_bytes, forest_depth, forest_files,
    lemma_forest_depth_element, saturating_add, FsAction, FsActionV, FsNode,
};

verus! {

/// Storage used by the versions directory of one folder.
pub struct VersionStorageInfo {
    /// Total size of the versions tree in bytes.
    pub total_bytes: u64,
    /// Human-readable size.
    pub total_formatted: String,
    /// Number of versioned files.
    pub file_count: u64,
    /// Whether the versions directory exists.
    pub exists: bool,
}

/// Result of a cleanup run.
pub struct CleanupResult {
    /// Number of files deleted.
    pub files_deleted: u64,
    /// Total bytes freed.
    pub bytes_freed: u64,
    /// Human-readable bytes freed.
    pub bytes_freed_formatted: String,
    /// Whether the cleanup succeeded.
    pub success: bool,
    /// Error message, if any.
    pub error: Option<String>,
}

/// Summarize the storage used by a versions tree snapshot; a missing
/// directory yields an all-zero report with `exists == false`, not an error.
pub fn get_version_storage_info(tree: Option<&Vec<FsNode>>) -> (r: VersionStorageInfo)
    ensures
        tree is None ==> !r.exists && r.total_bytes == 0 && r.file_count == 0
            && r.total_formatted@ == formatted_bytes(0),
        tree is Some ==> r.exists && r.total_bytes == (if forest_bytes(tree->0@) <= u64::MAX {
            forest_bytes(tree->0@) as u64
        } else {
            u64::MAX
        }) && r.file_count == (if forest_files(tree->0@) <= u64::MAX {
            forest_files(tree->0@) as u64
        } else {
            u64::MAX
        }) && r.total_formatted@ == formatted_bytes(r.total_bytes as nat),
{
    match tree {
        None => VersionStorageInfo {
            total_bytes: 0,
            total_formatted: format_bytes(0),
            file_count: 0,
            exists: false,
        },
        Some(entries) => {
            let (total_bytes, file_count) = calculate_dir_size(entries);
            VersionStorageInfo {
                total_bytes,
                total_formatted: format_bytes(total_bytes),
                file_count,
                exists: true,
            }
        },
    }
}

/// Tally the whole-tree cleanup.
///
/// `tree` is the snapshot taken before deletion (`None` when the versions
/// directory did not exist; the cleanup then succeeds vacuously), and
/// `remove_error` the failure message of the recursive delete, if it failed.
/// On failure the counts are zero and the message is carried in `error`
/// rather than propagated, so the caller always has a display-ready outcome.
pub fn cleanup_versions(tree: Option<&Vec<FsNode>>, remove_error: Option<&str>) -> (r:
    CleanupResult)
    requires
        tree is Some || remove_error is None,
    ensures
        tree is None ==> r.files_deleted == 0 && r.bytes_freed == 0 && r.bytes_freed_formatted@
            == formatted_bytes(0) && r.success && r.error is None,
        tree is Some && remove_error is None ==> r.files_deleted == (if forest_files(tree->0@)
            <= u64::MAX {
            forest_files(tree->0@) as u64
        } else {
            u64::MAX
        }) && r.bytes_freed == (if forest_bytes(tree->0@) <= u64::MAX {
            forest_bytes(tree->0@) as u64
        } else {
            u64::MAX
        }) && r.bytes_freed_formatted@ == formatted_bytes(r.bytes_freed as nat) && r.success
            && r.error is None,
        tree is Some && remove_error is Some ==> r.files_deleted == 0 && r.bytes_freed == 0
            && r.bytes_freed_formatted@ == formatted_bytes(0) && !r.success && (
        r.error matches Some(m) && m@ == "Failed to delete versions: "@ + remove_error->0@),
{
    match tree {
        None => CleanupResult {
            files_deleted: 0,
            bytes_freed: 0,
            bytes_freed_formatted: format_bytes(0),
            success: true,
            error: None,
        },
        Some(entries) => {
            match remove_error {
                None => {
                    let (bytes_to_free, file_count) = calculate_dir_size(entries);
                    CleanupResult {
                        files_deleted: file_count,
                        bytes_freed: bytes_to_free,
                        bytes_freed_formatted: format_bytes(bytes_to_free),
                        success: true,
                        error: None,
                    }
                },
                Some(e) => {
                    let mut message = "Failed to delete versions: ".to_owned();
                    message.append(e);
                    CleanupResult {
                        files_deleted: 0,
                        bytes_freed: 0,
                        bytes_freed_formatted: format_bytes(0),
                        success: false,
                        error: Some(message),
                    }
                },
            }
        },
    }
}

// ---------------------------------------------------------------------------
// Age-based retention
// ---------------------------------------------------------------------------

/// The cutoff for an age-based cleanup: `now` minus `days` whole days, in
/// Unix seconds, floored at 0.
pub fn cutoff_timestamp(now: u64, days: u32) -> (r: u64)
    ensures
        r == if now >= days * 86400 { now - days * 86400 } else { 0 },
{
    let seconds: u64 = (days as u64) * 86400;
    if now >= seconds {
        now - seconds
    } else {
        0
    }
}

/// The views of a sequence of (path, size) pairs.
pub open spec fn pairs_view(s: Seq<(String, u64)>) -> Seq<(Seq<char>, u64)> {
    Seq::new(s.len(), |i: int| (s[i].0@, s[i].1))
}

/// The files one snapshot entry contributes to an age-based deletion plan:
/// exactly the files whose modification time is known and strictly earlier
/// than the cutoff, with their path (relative to `prefix`) and size.
pub open spec fn old_files_entry(n: FsNode, prefix: Seq<char>, cutoff: u64) -> Seq<
    (Seq<char>, u64),
>
    decreases n,
{
    match n {
        FsNode::File { name, size, modified } => {
            if modified is Some && modified->0 < cutoff {
                seq![(prefix + name@, size)]
            } else {
                Seq::empty()
            }
        },
        FsNode::Dir { name, modified: _, entries } => {
            old_files_forest(entries@, prefix + name@ + seq!['/'], cutoff)
        },
    }
}

/// The age-based deletion plan of a whole forest, in traversal order.
pub open spec fn old_files_forest(s: Seq<FsNode>, prefix: Seq<char>, cutoff: u64) -> Seq<
    (Seq<char>, u64),
>
    decreases s,
{
    if s.len() == 0 {
        Seq::empty()
    } else {
        old_files_entry(s[0], prefix, cutoff) + old_files_forest(
            s.subrange(1, s.len() as int),
            prefix,
            cutoff,
        )
    }
}

/// Planning one more entry appends that entry's files.
proof fn lemma_old_files_take_one_more(s: Seq<FsNode>, prefix: Seq<char>, cutoff: u64, i: int)
    requires
        0 <= i < s.len(),
    ensures
        old_files_forest(s.subrange(0, i + 1), prefix, cutoff) == old_files_forest(
            s.subrange(0, i),
            prefix,
            cutoff,
        ) + old_files_entry(s[i], prefix, cutoff),
    decreases i,
{
    let pre = s.subrange(0, i + 1);
    if i == 0 {
        assert(pre.subrange(1, pre.len() as int) =~= Seq::<FsNode>::empty());
        assert(s.subrange(0, 0) =~= Seq::<FsNode>::empty());
        assert(pre[0] == s[0]);
        assert(old_files_forest(pre, prefix, cutoff) =~= old_files_forest(
            s.subrange(0, 0),
            prefix,
            cutoff,
        ) + old_files_entry(s[0], prefix, cutoff));
    } else {
        let t = s.subrange(1, s.len() as int);
        lemma_old_files_take_one_more(t, prefix, cutoff, i - 1);
        assert(pre.subrange(1, pre.len() as int) =~= t.subrange(0, i));
        assert(t.subrange(0, i - 1) =~= s.subrange(0, i).subrange(1, i));
        assert(t[i - 1] == s[i]);
        assert(pre[0] == s[0]);
        assert(s.subrange(0, i)[0] == s[0]);
        assert(old_files_forest(pre, prefix, cutoff) =~= old_files_forest(
            s.subrange(0, i),
            prefix,
            cutoff,
        ) + old_files_entry(s[i], prefix, cutoff));
    }
}

/// Walk a snapshot forest collecting the files to delete.
#[verifier::loop_isolation(false)]
fn collect_old_files(entries: &Vec<FsNode>, prefix: &str, cutoff: u64) -> (r: Vec<(String, u64)>)
    ensures
        pairs_view(r@) == old_files_forest(entries@, prefix@, cutoff),
    decreases forest_depth(entries@),
{
    let mut out: Vec<(String, u64)> = Vec::new();
    let mut i: usize = 0;
    while i < entries.len()
        invariant
            i <= entries.len(),
            pairs_view(out@) == old_files_forest(entries@.subrange(0, i as int), prefix@, cutoff),
        decreases entries.len() - i,
    {
        match &entries[i] {
            FsNode::File { name, size, modified } => {
                let is_old = match modified {
                    Some(t) => *t < cutoff,
                    None => false,
                };
                if is_old {
                    let mut rp = prefix.to_owned();
                    rp.append(name.as_str());
                    out.push((rp, *size));
                }
            },
            FsNode::Dir { name, entries: children, .. } => {
                let mut np = prefix.to_owned();
                np.append(name.as_str());
                np.append("/");
                proof {
                    reveal_strlit("/");
                    assert("/"@ =~= seq!['/']);
                    lemma_forest_depth_element(entries@, i as int);
                }
                let mut sub = collect_old_files(children, np.as_str(), cutoff);
                out.append(&mut sub);
            },
        }
        proof {
            lemma_old_files_take_one_more(entries@, prefix@, cutoff, i as int);
            assert(pairs_view(out@) =~= old_files_forest(
                entries@.subrange(0, i + 1),
                prefix@,
                cutoff,
            ));
        }
        i = i + 1;
    }
    proof {
        assert(entries@.subrange(0, entries@.len() as int) =~= entries@);
    }
    out
}

/// Plan an age-based cleanup: the paths (relative to the versions
/// directory) and sizes of exactly those files whose modification time is
/// strictly earlier than `cutoff`. A missing versions directory yields an
/// empty plan.
pub fn cleanup_versions_older_than_plan(tree: Option<&Vec<FsNode>>, cutoff: u64) -> (r: Vec<
    (String, u64),
>)
    ensures
        tree is None ==> r@ == Seq::<(String, u64)>::empty(),
        tree is Some ==> pairs_view(r@) == old_files_forest(tree->0@, Seq::empty(), cutoff),
{
    match tree {
        None => Vec::new(),
        Some(entries) => {
            proof {
                reveal_strlit("");
                assert(""@ =~= Seq::<char>::empty());
            }
            collect_old_files(entries, "", cutoff)
        },
    }
}

/// A file with a known modification time is in the deletion plan exactly
/// when that time is strictly before the cutoff: a file stamped at the
/// cutoff instant itself is left untouched.
pub proof fn lemma_retention_boundary_is_strict(
    name: String,
    size: u64,
    t: u64,
    prefix: Seq<char>,
    cutoff: u64,
)
    ensures
        t < cutoff ==> old_files_entry(
            FsNode::File { name, size, modified: Some(t) },
            prefix,
            cutoff,
        ) == seq![(prefix + name@, size)],
        t >= cutoff ==> old_files_entry(
            FsNode::File { name, size, modified: Some(t) },
            prefix,
            cutoff,
        ) == Seq::<(Seq<char>, u64)>::empty(),
{
}

/// Total size of the files in a deletion outcome.
pub open spec fn sizes_total(s: Seq<(String, u64)>) -> nat
    decreases s,
{
    if s.len() == 0 {
        0
    } else {
        s[0].1 as nat + sizes_total(s.subrange(1, s.len() as int))
    }
}

/// One more outcome entry adds its size.
proof fn lemma_sizes_take_one_more(s: Seq<(String, u64)>, i: int)
    requires
        0 <= i < s.len(),
    ensures
        sizes_total(s.subrange(0, i + 1)) == sizes_total(s.subrange(0, i)) + s[i].1,
    decreases i,
{
    let pre = s.subrange(0, i + 1);
    if i == 0 {
        assert(pre.subrange(1, pre.len() as int) =~= Seq::<(String, u64)>::empty());
        assert(s.subrange(0, 0) =~= Seq::<(String, u64)>::empty());
        assert(pre[0] == s[0]);
    } else {
        let t = s.subrange(1, s.len() as int);
        lemma_sizes_take_one_more(t, i - 1);
        assert(pre.subrange(1, pre.len() as int) =~= t.subrange(0, i));
        assert(t.subrange(0, i - 1) =~= s.subrange(0, i).subrange(1, i));
        assert(t[i - 1] == s[i]);
        assert(pre[0] == s[0]);
        assert(s.subrange(0, i)[0] == s[0]);
    }
}

/// Tally an age-based cleanup from the files the host actually deleted
/// (failed deletions are skipped by the host and never appear here): the
/// count and the byte total of exactly those files, always a success.
#[verifier::loop_isolation(false)]
pub fn retention_result(deleted: &Vec<(String, u64)>) -> (r: CleanupResult)
    ensures
        r.files_deleted == deleted@.len(),
        r.bytes_freed == (if sizes_total(deleted@) <= u64::MAX {
            sizes_total(deleted@) as u64
        } else {
            u64::MAX
        }),
        r.bytes_freed_formatted@ == formatted_bytes(r.bytes_freed as nat),
        r.success,
        r.error is None,
{
    let mut bytes: u64 = 0;
    let mut i: usize = 0;
    while i < deleted.len()
        invariant
            i <= deleted.len(),
            bytes == (if sizes_total(deleted@.subrange(0, i as int)) <= u64::MAX {
                sizes_total(deleted@.subrange(0, i as int)) as u64
            } else {
                u64::MAX
            }),
        decreases deleted.len() - i,
    {
        proof {
            lemma_sizes_take_one_more(deleted@, i as int);
        }
        bytes = saturating_add(bytes, deleted[i].1);
        i = i + 1;
    }
    proof {
        assert(deleted@.subrange(0, deleted@.len() as int) =~= deleted@);
    }
    CleanupResult {
        files_deleted: deleted.len() as u64,
        bytes_freed: bytes,
        bytes_freed_formatted: format_bytes(bytes),
        success: true,
        error: None,
    }
}

// ---------------------------------------------------------------------------
// Empty-directory sweep
// ---------------------------------------------------------------------------

/// The sweep plan over a list of directory paths: one remove-if-empty
/// action per path, in order.
pub open spec fn sweep_actions(paths: Seq<Seq<char>>) -> Seq<FsActionV> {
    Seq::new(paths.len(), |i: int| FsActionV::RemoveDirIfEmpty { path: paths[i] })
}

/// The views of a sequence of paths.
pub open spec fn strings_view(s: Seq<String>) -> Seq<Seq<char>> {
    Seq::new(s.len(), |i: int| s[i]@)
}

/// The directories one snapshot entry contributes to the bottom-up sweep
/// that removes directories left empty after a cleanup: children first,
/// then the directory itself.
pub open spec fn dir_sweep_entry(n: FsNode, prefix: Seq<char>) -> Seq<Seq<char>>
    decreases n,
{
    match n {
        FsNode::File { .. } => Seq::empty(),
        FsNode::Dir { name, modified: _, entries } => {
            dir_sweep_forest(entries@, prefix + name@ + seq!['/']) + seq![prefix + name@]
        },
    }
}

/// The bottom-up directory sweep of a whole forest, in traversal order.
pub open spec fn dir_sweep_forest(s: Seq<FsNode>, prefix: Seq<char>) -> Seq<Seq<char>>
    decreases s,
{
    if s.len() == 0 {
        Seq::empty()
    } else {
        dir_sweep_entry(s[0], prefix) + dir_sweep_forest(s.subrange(1, s.len() as int), prefix)
    }
}

/// Sweeping one more entry appends that entry's directories.
proof fn lemma_dir_sweep_take_one_more(s: Seq<FsNode>, prefix: Seq<char>, i: int)
    requires
        0 <= i < s.len(),
    ensures
        dir_sweep_forest(s.subrange(0, i + 1), prefix) == dir_sweep_forest(s.subrange(0, i), prefix)
            + dir_sweep_entry(s[i], prefix),
    decreases i,
{
    let pre = s.subrange(0, i + 1);
    if i == 0 {
        assert(pre.subrange(1, pre.len() as int) =~= Seq::<FsNode>::empty());
        assert(s.subrange(0, 0) =~= Seq::<FsNode>::empty());
        assert(pre[0] == s[0]);
        assert(dir_sweep_forest(pre, prefix) =~= dir_sweep_forest(s.subrange(0, 0), prefix)
            + dir_sweep_entry(s[0], prefix));
    } else {
        let t = s.subrange(1, s.len() as int);
        lemma_dir_sweep_take_one_more(t, prefix, i - 1);
        assert(pre.subrange(1, pre.len() as int) =~= t.subrange(0, i));
        assert(t.subrange(0, i - 1) =~= s.subrange(0, i).subrange(1, i));
        assert(t[i - 1] == s[i]);
        assert(pre[0] == s[0]);
        assert(s.subrange(0, i)[0] == s[0]);
        assert(dir_sweep_forest(pre, prefix) =~= dir_sweep_forest(s.subrange(0, i), prefix)
            + dir_sweep_entry(s[i], prefix));
    }
}

/// Walk a snapshot forest collecting directory paths bottom-up.
#[verifier::loop_isolation(false)]
fn collect_dirs_bottom_up(entries: &Vec<FsNode>, prefix: &str) -> (r: Vec<String>)
    ensures
        strings_view(r@) == dir_sweep_forest(entries@, prefix@),
    decreases forest_depth(entries@),
{
    let mut out: Vec<String> = Vec::new();
    let mut i: usize = 0;
    while i < entries.len()
        invariant
            i <= entries.len(),
            strings_view(out@) == dir_sweep_forest(entries@.subrange(0, i as int), prefix@),
        decreases entries.len() - i,
    {
        match &entries[i] {
            FsNode::File { .. } => {},
            FsNode::Dir { name, entries: children, .. } => {
                let mut np = prefix.to_owned();
                np.append(name.as_str());
                np.append("/");
                proof {
                    reveal_strlit("/");
                    assert("/"@ =~= seq!['/']);
                    lemma_forest_depth_element(entries@, i as int);
                }
                let mut sub = collect_dirs_bottom_up(children, np.as_str());
                out.append(&mut sub);
                let mut own = prefix.to_owned();
                own.append(name.as_str());
                out.push(own);
            },
        }
        proof {
            lemma_dir_sweep_take_one_more(entries@, prefix@, i as int);
            assert(strings_view(out@) =~= dir_sweep_forest(
                entries@.subrange(0, i + 1),
                prefix@,
            ));
        }
        i = i + 1;
    }
    proof {
        assert(entries@.subrange(0, entries@.len() as int) =~= entries@);
    }
    out
}

/// Plan the empty-directory sweep that follows an age-based cleanup: a
/// remove-if-empty action for every directory of the versions tree,
/// children before parents, and for the versions directory itself last.
/// The host attempts each removal and a failure leaves the directory in
/// place (one still holding files simply stays).
#[verifier::loop_isolation(false)]
pub fn cleanup_empty_dirs_plan(versions_path: &str, entries: &Vec<FsNode>) -> (r: Vec<FsAction>)
    ensures
        actions_view(r@) == sweep_actions(
            dir_sweep_forest(entries@, versions_path@ + seq!['/']) + seq![versions_path@],
        ),
{
    let mut prefix = versions_path.to_owned();
    prefix.append("/");
    proof {
        reveal_strlit("/");
        assert("/"@ =~= seq!['/']);
    }
    let mut paths = collect_dirs_bottom_up(entries, prefix.as_str());
    paths.push(versions_path.to_owned());
    proof {
        assert(strings_view(paths@) =~= dir_sweep_forest(entries@, versions_path@ + seq!['/'])
            + seq![versions_path@]);
    }
    let mut out: Vec<FsAction> = Vec::new();
    let mut i: usize = 0;
    while i < paths.len()
        invariant
            i <= paths.len(),
            out@.len() == i,
            forall|k: int| 0 <= k < i ==> out@[k]@ == (FsActionV::RemoveDirIfEmpty {
                path: paths@[k]@,
            }),
        decreases paths.len() - i,
    {
        out.push(FsAction::RemoveDirIfEmpty { path: paths[i].clone() });
        i = i + 1;
    }
    proof {
        assert(actions_view(out@) =~= sweep_actions(strings_view(paths@)));
    }
    out
}

} // verus!
