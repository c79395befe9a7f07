//! Installation probing: the decision half of the daemon-installation check.
//! The host runs the daemon binary with `--version` and hands the raw output
//! here; a failed probe falls back to the bundled sidecar.

use vstd::prelude::*;
use crate::codec::{ffind_char, first_char_pos, lemma_first_char_pos};

verus! {

/// Information about the daemon installation.
#[derive(Debug, Clone)]
pub struct SyncthingInfo {
    pub installed: bool,
    pub version: Option<String>,
    pub path: Option<String>,
    pub bundled: bool,
}

/// The first line of a text: up to the first newline, with a trailing
/// carriage return stripped; `None` for empty text.
pub open spec fn first_line_of(s: Seq<char>) -> Option<Seq<char>> {
    if s.len() == 0 {
        None
    } else {
        let line = s.subrange(0, first_char_pos(s, '\n'));
        if line.len() > 0 && line[line.len() - 1] == '\r' {
            Some(line.subrange(0, line.len() - 1))
        } else {
            Some(line)
        }
    }
}

/// Extract the first line of a command's output.
pub fn first_line(s: &str) -> (r: Option<String>)
    ensures
        r is Some <==> first_line_of(s@) is Some,
        r is Some ==> r->0@ == first_line_of(s@)->0,
{
    let n = s.unicode_len();
    if n == 0 {
        return None;
    }
    let end = match ffind_char(s, '\n') {
        Some(e) => e,
        None => n,
    };
    proof {
        lemma_first_char_pos(s@, '\n');
    }
    let line = s.substring_char(0, end);
    let line_n = line.unicode_len();
    if line_n > 0 && line.get_char(line_n - 1) == '\r' {
        Some(line.substring_char(0, line_n - 1).to_owned())
    } else {
        Some(line.to_owned())
    }
}

/// Build the installation report from a version probe.
///
/// A successful probe carries the raw `--version` output and the binary's
/// path, if found: the version shown is the output's first line. A failed
/// probe still reports an installation, because the bundled sidecar is
/// always available.
pub fn check_syncthing_installation(probe_output: Option<&str>, probe_path: Option<String>) -> (r:
    SyncthingInfo)
    ensures
        probe_output matches Some(out) ==> r.installed && !r.bundled && (match r.version {
            Some(v) => first_line_of(out@) matches Some(l) && v@ == l,
            None => first_line_of(out@) is None,
        }) && r.path == probe_path,
        probe_output is None ==> r.installed && r.bundled && (r.version matches Some(v) && v@
            == "bundled"@) && (r.path matches Some(p) && p@ == "bundled sidecar"@),
{
    match probe_output {
        Some(out) => SyncthingInfo {
            installed: true,
            version: first_line(out),
            path: probe_path,
            bundled: false,
        },
        None => SyncthingInfo {
            installed: true,
            version: Some("bundled".to_owned()),
            path: Some("bundled sidecar".to_owned()),
            bundled: true,
        },
    }
}

} // verus!
