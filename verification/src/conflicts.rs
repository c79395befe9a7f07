//! Conflict scanning and resolution.
//!
//! The scanner walks a folder snapshot depth first, skipping hidden
//! entries (files and directories alike) and the versions directory, and
//! reports every remaining file whose name carries the conflict marker. Resolution (discarding a conflict copy, or
//! promoting it over the original) is planned as filesystem actions for the
//! host to execute.

use vstd::prelude::*;
use crate::codec::{
    conflict_marker, contains_pat, decoded_conflict_name, extract_original_filename,
    has_conflict_marker, str_eq,
};
use crate::fsmodel::{
    actions_view, forest_depth, joined_path, lemma_forest_depth_element, path_join, FsAction,
    FsActionV, FsNode,
};

verus! {

/// Mathematical view of a conflict record.
pub struct ConflictRecordV {
    pub relative_path: Seq<char>,
    pub inferred_original_name: Seq<char>,
    pub size_bytes: u64,
    pub modified_at: Option<u64>,
}

/// One conflict file found by a scan.
pub struct ConflictRecord {
    /// Path of the conflict file relative to the folder root, with `/`
    /// separators.
    pub relative_path: String,
    /// Filename with the conflict marker and token stripped, extension
    /// preserved.
    pub inferred_original_name: String,
    /// File size in bytes at scan time.
    pub size_bytes: u64,
    /// Unix modification time in seconds; `None` when unreadable.
    pub modified_at: Option<u64>,
}

impl View for ConflictRecord {
    type V = ConflictRecordV;

    open spec fn view(&self) -> ConflictRecordV {
        ConflictRecordV {
            relative_path: self.relative_path@,
            inferred_original_name: self.inferred_original_name@,
            size_bytes: self.size_bytes,
            modified_at: self.modified_at,
        }
    }
}

/// The views of a sequence of conflict records.
pub open spec fn records_view(s: Seq<ConflictRecord>) -> Seq<ConflictRecordV> {
    Seq::new(s.len(), |i: int| s[i]@)
}

/// A hidden name: one starting with a dot.
pub open spec fn hidden_name(name: Seq<char>) -> bool {
    name.len() > 0 && name[0] == '.'
}

/// The fixed name of the versions directory.
pub open spec fn versions_dir_name() -> Seq<char> {
    ".stversions"@
}

/// Whether a scan descends into a directory of this name: hidden directories
/// and the versions directory are skipped.
pub open spec fn scannable_dir(name: Seq<char>) -> bool {
    !hidden_name(name) && name != versions_dir_name()
}

/// Executable form of `hidden_name`.
pub fn is_hidden_name(name: &str) -> (r: bool)
    ensures
        r == hidden_name(name@),
{
    let n = name.unicode_len();
    n > 0 && name.get_char(0) == '.'
}

/// Executable form of `scannable_dir`.
pub fn is_scannable_dir(name: &str) -> (r: bool)
    ensures
        r == scannable_dir(name@),
{
    if is_hidden_name(name) {
        return false;
    }
    !str_eq(name, ".stversions")
}

/// The conflict records contributed by one snapshot entry, in traversal
/// order; `prefix` is the relative path of the surrounding directory,
/// empty or ending with `/`. Hidden entries contribute nothing, whether
/// files or directories.
pub open spec fn scan_entry(n: FsNode, prefix: Seq<char>) -> Seq<ConflictRecordV>
    decreases n,
{
    match n {
        FsNode::File { name, size, modified } => {
            if !hidden_name(name@) && contains_pat(name@, conflict_marker()) {
                seq![
                    ConflictRecordV {
                        relative_path: prefix + name@,
                        inferred_original_name: decoded_conflict_name(name@),
                        size_bytes: size,
                        modified_at: modified,
                    },
                ]
            } else {
                Seq::empty()
            }
        },
        FsNode::Dir { name, modified: _, entries } => {
            if scannable_dir(name@) {
                scan_forest(entries@, prefix + name@ + seq!['/'])
            } else {
                Seq::empty()
            }
        },
    }
}

/// The conflict records of a snapshot forest, in traversal order.
pub open spec fn scan_forest(s: Seq<FsNode>, prefix: Seq<char>) -> Seq<ConflictRecordV>
    decreases s,
{
    if s.len() == 0 {
        Seq::empty()
    } else {
        scan_entry(s[0], prefix) + scan_forest(s.subrange(1, s.len() as int), prefix)
    }
}

/// Scanning one more entry appends that entry's records.
proof fn lemma_scan_forest_take_one_more(s: Seq<FsNode>, prefix: Seq<char>, i: int)
    requires
        0 <= i < s.len(),
    ensures
        scan_forest(s.subrange(0, i + 1), prefix)
            == scan_forest(s.subrange(0, i), prefix) + scan_entry(s[i], prefix),
    decreases i,
{
    let pre = s.subrange(0, i + 1);
    if i == 0 {
        assert(pre.subrange(1, pre.len() as int) =~= Seq::<FsNode>::empty());
        assert(s.subrange(0, 0) =~= Seq::<FsNode>::empty());
        assert(pre[0] == s[0]);
        assert(scan_forest(pre, prefix) =~= scan_forest(s.subrange(0, 0), prefix)
            + scan_entry(s[0], prefix));
    } else {
        let t = s.subrange(1, s.len() as int);
        lemma_scan_forest_take_one_more(t, prefix, i - 1);
        assert(pre.subrange(1, pre.len() as int) =~= t.subrange(0, i));
        assert(t.subrange(0, i - 1) =~= s.subrange(0, i).subrange(1, i));
        assert(t[i - 1] == s[i]);
        assert(pre[0] == s[0]);
        assert(s.subrange(0, i)[0] == s[0]);
        assert(scan_forest(pre, prefix)
            =~= scan_forest(s.subrange(0, i), prefix) + scan_entry(s[i], prefix));
    }
}

/// Walk a snapshot forest, collecting conflict records in traversal order.
#[verifier::loop_isolation(false)]
fn scan_entries(entries: &Vec<FsNode>, prefix: &str) -> (r: Vec<ConflictRecord>)
    ensures
        records_view(r@) == scan_forest(entries@, prefix@),
    decreases forest_depth(entries@),
{
    let mut out: Vec<ConflictRecord> = Vec::new();
    let mut i: usize = 0;
    while i < entries.len()
        invariant
            i <= entries.len(),
            records_view(out@) == scan_forest(entries@.subrange(0, i as int), prefix@),
        decreases entries.len() - i,
    {
        match &entries[i] {
            FsNode::File { name, size, modified } => {
                if !is_hidden_name(name.as_str()) && has_conflict_marker(name.as_str()) {
                    let mut rp = prefix.to_owned();
                    rp.append(name.as_str());
                    let original = extract_original_filename(name.as_str());
                    out.push(ConflictRecord {
                        relative_path: rp,
                        inferred_original_name: original,
                        size_bytes: *size,
                        modified_at: *modified,
                    });
                }
            },
            FsNode::Dir { name, entries: children, .. } => {
                if is_scannable_dir(name.as_str()) {
                    let mut np = prefix.to_owned();
                    np.append(name.as_str());
                    np.append("/");
                    proof {
                        reveal_strlit("/");
                        assert("/"@ =~= seq!['/']);
                        lemma_forest_depth_element(entries@, i as int);
                    }
                    let mut sub = scan_entries(children, np.as_str());
                    out.append(&mut sub);
                }
            },
        }
        proof {
            lemma_scan_forest_take_one_more(entries@, prefix@, i as int);
            assert(records_view(out@) =~= scan_forest(entries@.subrange(0, i + 1), prefix@));
        }
        i = i + 1;
    }
    proof {
        assert(entries@.subrange(0, entries@.len() as int) =~= entries@);
    }
    out
}

/// Scan a folder snapshot for conflict files, skipping hidden entries of
/// any kind and the versions directory.
///
/// `root` is `None` when the folder path does not exist; the scan then
/// returns an empty list rather than an error.
pub fn scan_for_conflicts(root: Option<&Vec<FsNode>>) -> (r: Vec<ConflictRecord>)
    ensures
        root is None ==> r@ == Seq::<ConflictRecord>::empty(),
        root is Some ==> records_view(r@) == scan_forest(root->0@, Seq::empty()),
{
    match root {
        None => Vec::new(),
        Some(entries) => {
            proof {
                reveal_strlit("");
                assert(""@ =~= Seq::<char>::empty());
            }
            scan_entries(entries, "")
        },
    }
}

/// Plan the discard of a conflict file: delete it if it exists, succeed
/// vacuously otherwise.
pub fn delete_conflict_file(folder_path: &str, conflict_file: &str, conflict_exists: bool) -> (r:
    Option<FsAction>)
    ensures
        conflict_exists ==> r is Some && r->0@ == (FsActionV::RemoveFile {
            path: joined_path(folder_path@, conflict_file@),
        }),
        !conflict_exists ==> r is None,
{
    if conflict_exists {
        Some(FsAction::RemoveFile { path: path_join(folder_path, conflict_file) })
    } else {
        None
    }
}

/// Plan the promotion of a conflict file over its original: delete the
/// original if present, then rename the conflict file onto the original's
/// path if present. Either step is skipped when its file is absent; with
/// neither file present the plan is empty and the operation succeeds
/// vacuously.
pub fn resolve_conflict_keep_conflict(
    folder_path: &str,
    original_file: &str,
    conflict_file: &str,
    original_exists: bool,
    conflict_exists: bool,
) -> (r: Vec<FsAction>)
    ensures
        actions_view(r@) == (if original_exists {
            seq![FsActionV::RemoveFile { path: joined_path(folder_path@, original_file@) }]
        } else {
            Seq::<FsActionV>::empty()
        }) + (if conflict_exists {
            seq![
                FsActionV::Rename {
                    from: joined_path(folder_path@, conflict_file@),
                    to: joined_path(folder_path@, original_file@),
                },
            ]
        } else {
            Seq::<FsActionV>::empty()
        }),
{
    let mut plan: Vec<FsAction> = Vec::new();
    if original_exists {
        plan.push(FsAction::RemoveFile { path: path_join(folder_path, original_file) });
    }
    if conflict_exists {
        plan.push(FsAction::Rename {
            from: path_join(folder_path, conflict_file),
            to: path_join(folder_path, original_file),
        });
    }
    proof {
        assert(actions_view(plan@) =~= (if original_exists {
            seq![FsActionV::RemoveFile { path: joined_path(folder_path@, original_file@) }]
        } else {
            Seq::<FsActionV>::empty()
        }) + (if conflict_exists {
            seq![
                FsActionV::Rename {
                    from: joined_path(folder_path@, conflict_file@),
                    to: joined_path(folder_path@, original_file@),
                },
            ]
        } else {
            Seq::<FsActionV>::empty()
        }));
    }
    plan
}

} // verus!
