//! Pending device and folder share requests, and the folder options used
//! when accepting one: sync direction and the versioning policy with its
//! per-type default parameters. The REST calls that list and accept the
//! requests are the host's job.

use vstd::prelude::*;
use crate::codec::str_eq;

verus! {

/// Folder sync type: controls the sync direction.
#[derive(Debug, Clone, Copy, PartialEq, Eq, Structural)]
pub enum FolderType {
    /// Full two-way sync (the default).
    SendReceive,
    /// Only send local changes; ignore remote changes.
    SendOnly,
    /// Only receive remote changes; local changes are overridden.
    ReceiveOnly,
}

/// The daemon's wire name of a folder type.
pub open spec fn folder_type_str(t: FolderType) -> Seq<char> {
    match t {
        FolderType::SendReceive => "sendreceive"@,
        FolderType::SendOnly => "sendonly"@,
        FolderType::ReceiveOnly => "receiveonly"@,
    }
}

impl FolderType {
    pub fn as_str(&self) -> (r: &'static str)
        ensures
            r@ == folder_type_str(*self),
    {
        match self {
            FolderType::SendReceive => "sendreceive",
            FolderType::SendOnly => "sendonly",
            FolderType::ReceiveOnly => "receiveonly",
        }
    }
}

impl Default for FolderType {
    fn default() -> (r: Self)
        ensures
            r == FolderType::SendReceive,
    {
        FolderType::SendReceive
    }
}

/// File versioning policy of a folder.
#[derive(Debug, Clone, Copy, PartialEq, Eq, Structural)]
pub enum VersioningType {
    /// No versioning: superseded files are deleted.
    Disabled,
    /// Superseded files move to the versions directory and age out.
    TrashCan,
    /// A fixed number of previous versions is kept.
    Simple,
    /// Time-based retention: more recent versions kept, fewer old ones.
    Staggered,
    /// An external command handles versioning.
    External,
}

/// The daemon's wire name of a versioning type; disabled versioning is the
/// empty string.
pub open spec fn versioning_type_str(t: VersioningType) -> Seq<char> {
    match t {
        VersioningType::Disabled => ""@,
        VersioningType::TrashCan => "trashcan"@,
        VersioningType::Simple => "simple"@,
        VersioningType::Staggered => "staggered"@,
        VersioningType::External => "external"@,
    }
}

impl VersioningType {
    pub fn as_str(&self) -> (r: &'static str)
        ensures
            r@ == versioning_type_str(*self),
    {
        match self {
            VersioningType::Disabled => "",
            VersioningType::TrashCan => "trashcan",
            VersioningType::Simple => "simple",
            VersioningType::Staggered => "staggered",
            VersioningType::External => "external",
        }
    }
}

impl Default for VersioningType {
    fn default() -> (r: Self)
        ensures
            r == VersioningType::Disabled,
    {
        VersioningType::Disabled
    }
}

/// A parameter list holds the key.
pub open spec fn has_param(s: Seq<(String, String)>, key: Seq<char>) -> bool {
    exists|i: int| 0 <= i < s.len() && s[i].0@ == key
}

/// Each key appears at most once in the parameter list: the invariant the
/// original parameter map gives, which makes "a key the list does not set"
/// unambiguous.
pub open spec fn params_keys_unique(s: Seq<(String, String)>) -> bool {
    forall|i: int, j: int| 0 <= i < j < s.len() ==> s[i].0@ != s[j].0@
}

/// The views of a parameter list.
pub open spec fn params_view(s: Seq<(String, String)>) -> Seq<(Seq<char>, Seq<char>)> {
    Seq::new(s.len(), |i: int| (s[i].0@, s[i].1@))
}

/// A parameter list with the type's defaults appended for every key the
/// list does not set: trashcan cleans out after 0 days, simple keeps 5
/// versions, staggered cleans hourly with a one-year maximum age, external
/// runs an (initially empty) command.
pub open spec fn params_with_defaults_of(s: Seq<(String, String)>, t: VersioningType) -> Seq<
    (Seq<char>, Seq<char>),
> {
    params_view(s) + (match t {
        VersioningType::Disabled => Seq::<(Seq<char>, Seq<char>)>::empty(),
        VersioningType::TrashCan => if has_param(s, "cleanoutDays"@) {
            Seq::<(Seq<char>, Seq<char>)>::empty()
        } else {
            seq![("cleanoutDays"@, "0"@)]
        },
        VersioningType::Simple => if has_param(s, "keep"@) {
            Seq::<(Seq<char>, Seq<char>)>::empty()
        } else {
            seq![("keep"@, "5"@)]
        },
        VersioningType::Staggered => (if has_param(s, "cleanInterval"@) {
            Seq::<(Seq<char>, Seq<char>)>::empty()
        } else {
            seq![("cleanInterval"@, "3600"@)]
        }) + (if has_param(s, "maxAge"@) {
            Seq::<(Seq<char>, Seq<char>)>::empty()
        } else {
            seq![("maxAge"@, "31536000"@)]
        }),
        VersioningType::External => if has_param(s, "command"@) {
            Seq::<(Seq<char>, Seq<char>)>::empty()
        } else {
            seq![("command"@, ""@)]
        },
    })
}

/// Versioning configuration for a folder: the policy and its parameters as
/// key/value pairs.
#[derive(Debug, Clone)]
pub struct VersioningConfig {
    /// The type of versioning to use.
    pub versioning_type: VersioningType,
    /// Type-specific parameters; well-formed values set each key at most
    /// once (`params_keys_unique`).
    pub params: Vec<(String, String)>,
}

impl Default for VersioningConfig {
    fn default() -> (r: Self)
        ensures
            r.versioning_type == VersioningType::Disabled,
            r.params@.len() == 0,
    {
        VersioningConfig { versioning_type: VersioningType::Disabled, params: Vec::new() }
    }
}

/// Whether a parameter list sets the key.
#[verifier::loop_isolation(false)]
fn has_param_exec(params: &Vec<(String, String)>, key: &str) -> (r: bool)
    ensures
        r == has_param(params@, key@),
{
    let mut i: usize = 0;
    while i < params.len()
        invariant
            i <= params.len(),
            forall|k: int| 0 <= k < i ==> params@[k].0@ != key@,
        decreases params.len() - i,
    {
        if str_eq(params[i].0.as_str(), key) {
            return true;
        }
        i = i + 1;
    }
    false
}

impl VersioningConfig {
    /// Well-formed parameters: each key set at most once.
    pub open spec fn wf(&self) -> bool {
        params_keys_unique(self.params@)
    }

    /// The parameters as handed to the daemon: the configured pairs in
    /// order, followed by the defaults of the versioning type for every key
    /// not already set. Keys stay unique when they were unique to begin
    /// with.
    #[verifier::loop_isolation(false)]
    pub fn params_with_defaults(&self) -> (r: Vec<(String, String)>)
        ensures
            params_view(r@) == params_with_defaults_of(self.params@, self.versioning_type),
            self.wf() ==> params_keys_unique(r@),
    {
        let mut out: Vec<(String, String)> = Vec::new();
        let mut i: usize = 0;
        while i < self.params.len()
            invariant
                i <= self.params.len(),
                out@.len() == i,
                forall|k: int| 0 <= k < i ==> out@[k].0@ == self.params@[k].0@ && out@[k].1@
                    == self.params@[k].1@,
            decreases self.params.len() - i,
        {
            let (k, v) = (&self.params[i].0, &self.params[i].1);
            out.push((k.clone(), v.clone()));
            i = i + 1;
        }
        match self.versioning_type {
            VersioningType::Disabled => {},
            VersioningType::TrashCan => {
                if !has_param_exec(&self.params, "cleanoutDays") {
                    out.push(("cleanoutDays".to_owned(), "0".to_owned()));
                }
            },
            VersioningType::Simple => {
                if !has_param_exec(&self.params, "keep") {
                    out.push(("keep".to_owned(), "5".to_owned()));
                }
            },
            VersioningType::Staggered => {
                if !has_param_exec(&self.params, "cleanInterval") {
                    out.push(("cleanInterval".to_owned(), "3600".to_owned()));
                }
                if !has_param_exec(&self.params, "maxAge") {
                    out.push(("maxAge".to_owned(), "31536000".to_owned()));
                }
            },
            VersioningType::External => {
                if !has_param_exec(&self.params, "command") {
                    out.push(("command".to_owned(), "".to_owned()));
                }
            },
        }
        proof {
            assert(params_view(out@) =~= params_with_defaults_of(
                self.params@,
                self.versioning_type,
            ));
            if params_keys_unique(self.params@) {
                let s = self.params@;
                let pv = params_with_defaults_of(s, self.versioning_type);
                let plen = s.len() as int;
                reveal_strlit("cleanInterval");
                reveal_strlit("maxAge");
                assert("cleanInterval"@.len() == 13);
                assert("maxAge"@.len() == 6);
                assert("cleanInterval"@ != "maxAge"@);
                assert forall|i: int, j: int|
                    0 <= i < j < out@.len() implies out@[i].0@ != out@[j].0@ by {
                    assert(out@[i].0@ == params_view(out@)[i].0);
                    assert(out@[j].0@ == params_view(out@)[j].0);
                    if j >= plen && params_view(out@)[i].0 == params_view(out@)[j].0 {
                        assert(!has_param(s, pv[j].0));
                        if i < plen {
                            assert(pv[i].0 == s[i].0@);
                            assert(s[i].0@ == pv[j].0);
                            assert(has_param(s, pv[j].0));
                        } else {
                            assert(pv[i].0 == "cleanInterval"@);
                            assert(pv[j].0 == "maxAge"@);
                        }
                    }
                }
            }
        }
        out
    }
}

/// A pending device connection request.
#[derive(Debug, Clone)]
pub struct PendingDevice {
    /// The device ID requesting connection.
    pub device_id: String,
    /// Device name, if known.
    pub name: Option<String>,
    /// Address the device connected from.
    pub address: Option<String>,
    /// When the request was received.
    pub time: Option<String>,
}

/// A pending folder share request.
#[derive(Debug, Clone)]
pub struct PendingFolder {
    /// The folder ID being shared.
    pub folder_id: String,
    /// Folder label, if provided.
    pub folder_label: Option<String>,
    /// Device ID that wants to share this folder.
    pub offered_by: String,
    /// Device name, if known.
    pub offered_by_name: Option<String>,
    /// When the request was received.
    pub time: Option<String>,
    /// Whether encryption is required.
    pub receive_encrypted: bool,
    /// Whether a remote encryption password is set.
    pub remote_encrypted: bool,
}

/// All pending requests in one response.
#[derive(Debug, Clone)]
pub struct PendingRequests {
    pub devices: Vec<PendingDevice>,
    pub folders: Vec<PendingFolder>,
}

} // verus!
