//! Snapshot model of a folder tree.
//!
//! The host reads a directory tree from disk (best effort, silently skipping
//! unreadable entries) into `FsNode` values; every scan, listing and cleanup
//! decision in this crate is then a pure, verified function of that snapshot.

use vstd::prelude::*;

verus! {

/// One entry of a folder snapshot: a regular file with its metadata, or a
/// directory with the entries that could be read from it.
///
/// `modified` is a Unix timestamp in seconds; `None` when the metadata read
/// failed at snapshot time.
pub enum FsNode {
    File { name: String, size: u64, modified: Option<u64> },
    Dir { name: String, modified: Option<u64>, entries: Vec<FsNode> },
}

/// Total size in bytes of all files in a forest, as an unbounded integer.
pub open spec fn forest_bytes(s: Seq<FsNode>) -> nat
    decreases s,
{
    if s.len() == 0 {
        0
    } else {
        node_bytes(s[0]) + forest_bytes(s.subrange(1, s.len() as int))
    }
}

/// Total size in bytes of the files in one entry.
pub open spec fn node_bytes(n: FsNode) -> nat
    decreases n,
{
    match n {
        FsNode::File { size, .. } => size as nat,
        FsNode::Dir { entries, .. } => forest_bytes(entries@),
    }
}

/// Number of files in a forest (directories are not counted).
pub open spec fn forest_files(s: Seq<FsNode>) -> nat
    decreases s,
{
    if s.len() == 0 {
        0
    } else {
        node_files(s[0]) + forest_files(s.subrange(1, s.len() as int))
    }
}

/// Number of files in one entry.
pub open spec fn node_files(n: FsNode) -> nat
    decreases n,
{
    match n {
        FsNode::File { .. } => 1,
        FsNode::Dir { entries, .. } => forest_files(entries@),
    }
}

/// Nesting depth of one entry: 0 for a file, one more than the deepest child
/// for a directory. Serves as the termination measure of the executable
/// recursions over snapshots.
pub open spec fn node_depth(n: FsNode) -> nat
    decreases n,
{
    match n {
        FsNode::File { .. } => 0,
        FsNode::Dir { entries, .. } => forest_depth(entries@) + 1,
    }
}

/// Nesting depth of the deepest entry of a forest.
pub open spec fn forest_depth(s: Seq<FsNode>) -> nat
    decreases s,
{
    if s.len() == 0 {
        0
    } else if node_depth(s[0]) >= forest_depth(s.subrange(1, s.len() as int)) {
        node_depth(s[0])
    } else {
        forest_depth(s.subrange(1, s.len() as int))
    }
}

/// Every entry of a forest is at most as deep as the forest.
pub proof fn lemma_forest_depth_element(s: Seq<FsNode>, i: int)
    requires
        0 <= i < s.len(),
    ensures
        node_depth(s[i]) <= forest_depth(s),
    decreases s.len(),
{
    if i > 0 {
        lemma_forest_depth_element(s.subrange(1, s.len() as int), i - 1);
        assert(s.subrange(1, s.len() as int)[i - 1] == s[i]);
    }
}

/// Recursively sum file sizes and count files in a snapshot forest.
///
/// Both results saturate at `u64::MAX` instead of overflowing.
#[verifier::loop_isolation(false)]
pub fn calculate_dir_size(entries: &Vec<FsNode>) -> (r: (u64, u64))
    ensures
        r.0 == if forest_bytes(entries@) <= u64::MAX { forest_bytes(entries@) as u64 } else { u64::MAX },
        r.1 == if forest_files(entries@) <= u64::MAX { forest_files(entries@) as u64 } else { u64::MAX },
{
    let mut total: u64 = 0;
    let mut count: u64 = 0;
    let mut i: usize = 0;
    while i < entries.len()
        invariant
            i <= entries.len(),
            total == if forest_bytes(entries@.subrange(0, i as int)) <= u64::MAX { forest_bytes(entries@.subrange(0, i as int)) as u64 } else { u64::MAX },
            count == if forest_files(entries@.subrange(0, i as int)) <= u64::MAX { forest_files(entries@.subrange(0, i as int)) as u64 } else { u64::MAX },
        decreases entries.len() - i,
    {
        let (nb, nf) = node_size(&entries[i]);
        proof {
            lemma_forest_take_one_more(entries@, i as int);
        }
        total = saturating_add(total, nb);
        count = saturating_add(count, nf);
        i = i + 1;
    }
    proof {
        assert(entries@.subrange(0, entries@.len() as int) =~= entries@);
    }
    (total, count)
}

/// Size and file count of one snapshot entry, saturating at `u64::MAX`.
#[verifier::loop_isolation(false)]
fn node_size(n: &FsNode) -> (r: (u64, u64))
    ensures
        r.0 == if node_bytes(*n) <= u64::MAX { node_bytes(*n) as u64 } else { u64::MAX },
        r.1 == if node_files(*n) <= u64::MAX { node_files(*n) as u64 } else { u64::MAX },
    decreases node_depth(*n),
{
    match n {
        FsNode::File { size, .. } => (*size, 1),
        FsNode::Dir { entries, .. } => {
            let mut total: u64 = 0;
            let mut count: u64 = 0;
            let mut i: usize = 0;
            while i < entries.len()
                invariant
                    i <= entries.len(),
                    total == if forest_bytes(entries@.subrange(0, i as int)) <= u64::MAX { forest_bytes(entries@.subrange(0, i as int)) as u64 } else { u64::MAX },
                    count == if forest_files(entries@.subrange(0, i as int)) <= u64::MAX { forest_files(entries@.subrange(0, i as int)) as u64 } else { u64::MAX },
                decreases entries.len() - i,
            {
                proof {
                    lemma_forest_depth_element(entries@, i as int);
                }
                let (nb, nf) = node_size(&entries[i]);
                proof {
                    lemma_forest_take_one_more(entries@, i as int);
                }
                total = saturating_add(total, nb);
                count = saturating_add(count, nf);
                i = i + 1;
            }
            proof {
                assert(entries@.subrange(0, entries@.len() as int) =~= entries@);
            }
            (total, count)
        },
    }
}

/// `u64` addition that sticks at `u64::MAX` instead of overflowing.
pub fn saturating_add(a: u64, b: u64) -> (r: u64)
    ensures
        r == if a + b <= u64::MAX { (a + b) as u64 } else { u64::MAX },
{
    if a <= u64::MAX - b {
        a + b
    } else {
        u64::MAX
    }
}

/// Splitting off the first `i + 1` entries adds the `i`-th entry's totals to
/// those of the first `i`.
proof fn lemma_forest_take_one_more(s: Seq<FsNode>, i: int)
    requires
        0 <= i < s.len(),
    ensures
        forest_bytes(s.subrange(0, i + 1)) == forest_bytes(s.subrange(0, i)) + node_bytes(s[i]),
        forest_files(s.subrange(0, i + 1)) == forest_files(s.subrange(0, i)) + node_files(s[i]),
    decreases i,
{
    let pre = s.subrange(0, i + 1);
    if i == 0 {
        assert(pre.subrange(1, pre.len() as int) =~= Seq::<FsNode>::empty());
        assert(s.subrange(0, 0) =~= Seq::<FsNode>::empty());
        assert(pre[0] == s[0]);
    } else {
        lemma_forest_take_one_more(s.subrange(1, s.len() as int), i - 1);
        let t = s.subrange(1, s.len() as int);
        assert(pre.subrange(1, pre.len() as int) =~= t.subrange(0, i));
        assert(s.subrange(0, i).subrange(1, i) =~= t.subrange(0, i - 1));
        assert(t.subrange(0, i - 1) == s.subrange(0, i).subrange(1, i));
        assert(t[i - 1] == s[i]);
        assert(pre[0] == s[0]);
        assert(s.subrange(0, i)[0] == s[0]);
    }
}

// ---------------------------------------------------------------------------
// Paths and planned filesystem actions
// ---------------------------------------------------------------------------

/// View of `path_join`: the two parts separated by a single slash.
pub open spec fn joined_path(a: Seq<char>, b: Seq<char>) -> Seq<char> {
    a + seq!['/'] + b
}

/// Join a base path and a relative path with a slash.
pub fn path_join(a: &str, b: &str) -> (r: String)
    ensures
        r@ == joined_path(a@, b@),
{
    let mut r = a.to_owned();
    r.append("/");
    r.append(b);
    proof {
        reveal_strlit("/");
        assert("/"@ =~= seq!['/']);
        assert(r@ =~= joined_path(a@, b@));
    }
    r
}

/// Mathematical view of one planned action.
pub enum FsActionV {
    RemoveFile { path: Seq<char> },
    Rename { from: Seq<char>, to: Seq<char> },
    CopyFile { from: Seq<char>, to: Seq<char> },
    RemoveDirIfEmpty { path: Seq<char> },
}

/// One filesystem action planned by this crate for the host to execute: the
/// destructive half of every operation is returned as data instead of being
/// performed here.
pub enum FsAction {
    /// Delete the file at `path`.
    RemoveFile { path: String },
    /// Rename `from` onto `to`.
    Rename { from: String, to: String },
    /// Copy `from` to `to`, creating `to`'s parent directories first.
    CopyFile { from: String, to: String },
    /// Remove the directory at `path` if it is empty; otherwise leave it.
    RemoveDirIfEmpty { path: String },
}

impl View for FsAction {
    type V = FsActionV;

    open spec fn view(&self) -> FsActionV {
        match self {
            FsAction::RemoveFile { path } => FsActionV::RemoveFile { path: path@ },
            FsAction::Rename { from, to } => FsActionV::Rename { from: from@, to: to@ },
            FsAction::CopyFile { from, to } => FsActionV::CopyFile { from: from@, to: to@ },
            FsAction::RemoveDirIfEmpty { path } => FsActionV::RemoveDirIfEmpty { path: path@ },
        }
    }
}

/// The views of a sequence of planned actions.
pub open spec fn actions_view(s: Seq<FsAction>) -> Seq<FsActionV> {
    Seq::new(s.len(), |i: int| s[i]@)
}

} // verus!
