//! Browsing and restoring historical versions.
//!
//! The daemon keeps superseded file contents under a fixed-name versions
//! directory, mirroring the folder tree, each file renamed with a version
//! stamp. Browsing decodes one directory level of that tree and orders it
//! directories first, then newest first; restoring copies a version back to
//! its live location behind an explicit overwrite gate.

use vstd::prelude::*;
use crate::codec::{decoded_version, parse_version_filename};
use crate::errors::{ErrorKind, SyncthingError};
use crate::fsmodel::{joined_path, path_join, FsAction, FsActionV, FsNode};

verus! {

broadcast use vstd::seq_lib::group_to_multiset_ensures;

/// Whether a version entry is a file or a directory.
#[derive(Debug, Clone, Copy, PartialEq, Eq, Structural)]
pub enum EntryType {
    File,
    Directory,
}

/// Mathematical view of a version entry.
pub struct VersionEntryV {
    pub file_name: Seq<char>,
    pub original_name: Seq<char>,
    pub entry_type: EntryType,
    pub size_bytes: Option<u64>,
    pub modified_at: Option<u64>,
    pub version_timestamp: Option<Seq<char>>,
}

/// One entry of a versions-directory listing.
pub struct VersionEntry {
    /// Raw name as stored under the versions directory.
    pub file_name: String,
    /// Name with the version stamp stripped; equals `file_name` for
    /// directories and for names whose stamp is malformed.
    pub original_name: String,
    /// File or directory.
    pub entry_type: EntryType,
    /// Size in bytes; absent for directories.
    pub size_bytes: Option<u64>,
    /// Unix modification time in seconds; absent when unreadable.
    pub modified_at: Option<u64>,
    /// Human-readable `YYYY-MM-DD HH:MM:SS` stamp, present only when the
    /// name carries a well-formed version stamp.
    pub version_timestamp: Option<String>,
}

impl View for VersionEntry {
    type V = VersionEntryV;

    open spec fn view(&self) -> VersionEntryV {
        VersionEntryV {
            file_name: self.file_name@,
            original_name: self.original_name@,
            entry_type: self.entry_type,
            size_bytes: self.size_bytes,
            modified_at: self.modified_at,
            version_timestamp: match self.version_timestamp {
                Some(s) => Some(s@),
                None => None,
            },
        }
    }
}

/// The views of a sequence of version entries.
pub open spec fn entries_view(s: Seq<VersionEntry>) -> Seq<VersionEntryV> {
    Seq::new(s.len(), |i: int| s[i]@)
}

/// The listing entry a snapshot node decodes to: directories keep their name
/// and carry no size or stamp; files are decoded with the version codec.
pub open spec fn entry_of(n: FsNode) -> VersionEntryV {
    match n {
        FsNode::File { name, size, modified } => VersionEntryV {
            file_name: name@,
            original_name: decoded_version(name@).0,
            entry_type: EntryType::File,
            size_bytes: Some(size),
            modified_at: modified,
            version_timestamp: decoded_version(name@).1,
        },
        FsNode::Dir { name, modified, .. } => VersionEntryV {
            file_name: name@,
            original_name: name@,
            entry_type: EntryType::Directory,
            size_bytes: None,
            modified_at: modified,
            version_timestamp: None,
        },
    }
}

/// The decoded (unsorted) listing of a snapshot's direct children.
pub open spec fn listing_view(s: Seq<FsNode>) -> Seq<VersionEntryV> {
    Seq::new(s.len(), |i: int| entry_of(s[i]))
}

/// Sort key for modification times: a missing time sorts as 0 (oldest).
pub open spec fn mod_key(e: VersionEntryV) -> u64 {
    match e.modified_at {
        Some(t) => t,
        None => 0,
    }
}

/// The listing order: all directories before all files; within each group,
/// newer modification times first. A total preorder; ties may come out in
/// any order.
pub open spec fn entry_le(a: VersionEntryV, b: VersionEntryV) -> bool {
    if a.entry_type == EntryType::Directory && b.entry_type == EntryType::File {
        true
    } else if a.entry_type == EntryType::File && b.entry_type == EntryType::Directory {
        false
    } else {
        mod_key(a) >= mod_key(b)
    }
}

/// The whole sequence is in listing order.
pub open spec fn entries_sorted(s: Seq<VersionEntry>) -> bool {
    forall|i: int, j: int| 0 <= i < j < s.len() ==> entry_le(s[i]@, s[j]@)
}

/// Executable form of `entry_le`.
fn entry_le_exec(a: &VersionEntry, b: &VersionEntry) -> (r: bool)
    ensures
        r == entry_le(a@, b@),
{
    let a_dir = matches!(a.entry_type, EntryType::Directory);
    let b_dir = matches!(b.entry_type, EntryType::Directory);
    if a_dir && !b_dir {
        true
    } else if !a_dir && b_dir {
        false
    } else {
        let at: u64 = match a.modified_at {
            Some(t) => t,
            None => 0,
        };
        let bt: u64 = match b.modified_at {
            Some(t) => t,
            None => 0,
        };
        at >= bt
    }
}

/// Decode the direct children of a versions directory, in snapshot order.
#[verifier::loop_isolation(false)]
fn build_entries(children: &Vec<FsNode>) -> (r: Vec<VersionEntry>)
    ensures
        entries_view(r@) == listing_view(children@),
{
    let mut out: Vec<VersionEntry> = Vec::new();
    let mut i: usize = 0;
    while i < children.len()
        invariant
            i <= children.len(),
            out@.len() == i,
            forall|k: int| 0 <= k < i ==> out@[k]@ == entry_of(children@[k]),
        decreases children.len() - i,
    {
        match &children[i] {
            FsNode::File { name, size, modified } => {
                let (original, stamp) = parse_version_filename(name.as_str());
                out.push(VersionEntry {
                    file_name: name.clone(),
                    original_name: original,
                    entry_type: EntryType::File,
                    size_bytes: Some(*size),
                    modified_at: *modified,
                    version_timestamp: stamp,
                });
            },
            FsNode::Dir { name, modified, .. } => {
                out.push(VersionEntry {
                    file_name: name.clone(),
                    original_name: name.clone(),
                    entry_type: EntryType::Directory,
                    size_bytes: None,
                    modified_at: *modified,
                    version_timestamp: None,
                });
            },
        }
        i = i + 1;
    }
    proof {
        assert(entries_view(out@) =~= listing_view(children@));
    }
    out
}

/// Selection sort into listing order. The result holds the same entries
/// (view-wise, as a multiset) in sorted order.
#[verifier::loop_isolation(false)]
fn sort_entries(input: Vec<VersionEntry>) -> (r: Vec<VersionEntry>)
    ensures
        entries_view(r@).to_multiset() == entries_view(input@).to_multiset(),
        entries_sorted(r@),
{
    let mut rem = input;
    let mut out: Vec<VersionEntry> = Vec::new();
    proof {
        assert(entries_view(out@) =~= Seq::<VersionEntryV>::empty());
        assert(entries_view(out@).to_multiset().add(entries_view(rem@).to_multiset())
            =~= entries_view(input@).to_multiset());
    }
    while rem.len() > 0
        invariant
            entries_view(out@).to_multiset().add(entries_view(rem@).to_multiset())
                == entries_view(input@).to_multiset(),
            entries_sorted(out@),
            forall|i: int, j: int|
                0 <= i < out@.len() && 0 <= j < rem@.len() ==> entry_le(out@[i]@, rem@[j]@),
        decreases rem.len(),
    {
        let mut b: usize = 0;
        let mut j: usize = 1;
        while j < rem.len()
            invariant
                0 <= b < j <= rem.len(),
                forall|k: int| 0 <= k < j ==> entry_le(rem@[b as int]@, rem@[k]@),
            decreases rem.len() - j,
        {
            if !entry_le_exec(&rem[b], &rem[j]) {
                b = j;
            }
            j = j + 1;
        }
        let ghost old_out = out@;
        let ghost old_rem = rem@;
        let x = rem.remove(b);
        out.push(x);
        proof {
            let vs = entries_view(old_rem);
            assert(entries_view(rem@) =~= vs.remove(b as int));
            assert(entries_view(out@) =~= entries_view(old_out).push(x@));
            assert(x@ == vs[b as int]);
            assert(vs.contains(vs[b as int]));
            assert(vs.to_multiset().count(vs[b as int]) > 0);
            assert(entries_view(out@).to_multiset()
                =~= entries_view(old_out).to_multiset().insert(x@));
            assert(entries_view(rem@).to_multiset() =~= vs.to_multiset().remove(x@));
            assert(entries_view(out@).to_multiset().add(entries_view(rem@).to_multiset())
                =~= entries_view(old_out).to_multiset().add(vs.to_multiset()));
            assert(forall|j2: int| 0 <= j2 < rem@.len() ==> entries_view(rem@)[j2]
                == (if j2 < b as int { vs[j2] } else { vs[j2 + 1] }));
        }
    }
    proof {
        assert(entries_view(rem@) =~= Seq::<VersionEntryV>::empty());
        assert(entries_view(out@).to_multiset().add(entries_view(rem@).to_multiset())
            =~= entries_view(out@).to_multiset());
    }
    out
}

/// Decode and order one directory level of the versions tree.
///
/// `listing` holds the direct children of the requested path inside the
/// versions directory, or `None` when that path does not exist; a missing
/// path yields an empty listing rather than an error. The result holds
/// exactly the decoded children, directories first, newest first.
pub fn browse_versions(listing: Option<&Vec<FsNode>>) -> (r: Vec<VersionEntry>)
    ensures
        listing is None ==> r@ == Seq::<VersionEntry>::empty(),
        listing is Some ==> entries_view(r@).to_multiset() == listing_view(
            listing->0@,
        ).to_multiset() && entries_sorted(r@),
{
    match listing {
        None => Vec::new(),
        Some(children) => sort_entries(build_entries(children)),
    }
}

/// Gate and plan the restore of a version file to its live location.
///
/// The source is `folder_path/.stversions/version_path`, the destination
/// `folder_path/original_name`. Fails with `NotFound` when the source is
/// missing, and with `AlreadyExists` when the destination exists and
/// `overwrite` was not requested; otherwise the plan is to copy the source
/// over the destination (creating parent directories), leaving the
/// historical version untouched.
pub fn restore_version(
    folder_path: &str,
    version_path: &str,
    original_name: &str,
    source_exists: bool,
    dest_exists: bool,
    overwrite: bool,
) -> (r: Result<FsAction, SyncthingError>)
    ensures
        !source_exists ==> (r matches Err(e) && e.kind == ErrorKind::NotFound && e.message@
            == "Version file not found"@ && (e.context matches Some(c) && c@ == version_path@)
            && !e.recoverable && e.recovery_hint is None),
        source_exists && dest_exists && !overwrite ==> (r matches Err(e) && e.kind
            == ErrorKind::AlreadyExists && e.message@ == "Destination file already exists"@
            && (e.context matches Some(c) && c@ == original_name@) && !e.recoverable
            && (e.recovery_hint matches Some(h) && h@
            == "Set overwrite=true to replace the existing file"@)),
        source_exists && (!dest_exists || overwrite) ==> (r matches Ok(a) && a@
            == (FsActionV::CopyFile {
            from: joined_path(joined_path(folder_path@, ".stversions"@), version_path@),
            to: joined_path(folder_path@, original_name@),
        })),
{
    if !source_exists {
        proof {
            reveal_strlit("Version file");
            reveal_strlit(" not found");
            reveal_strlit("Version file not found");
            assert("Version file"@ + " not found"@ =~= "Version file not found"@);
        }
        return Err(SyncthingError::not_found("Version file").with_context(version_path));
    }
    if dest_exists && !overwrite {
        proof {
            reveal_strlit("Destination file");
            reveal_strlit(" already exists");
            reveal_strlit("Destination file already exists");
            assert("Destination file"@ + " already exists"@
                =~= "Destination file already exists"@);
        }
        return Err(
            SyncthingError::already_exists("Destination file").with_context(original_name)
                .with_recovery_hint("Set overwrite=true to replace the existing file"),
        );
    }
    let versions_root = path_join(folder_path, ".stversions");
    Ok(FsAction::CopyFile {
        from: path_join(versions_root.as_str(), version_path),
        to: path_join(folder_path, original_name),
    })
}

} // verus!
