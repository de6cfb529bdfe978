//! Lock and info files that tell whether a daemon serves a project.
//!
//! Both files live in the data directory under names derived from the
//! MD5 digest of the project path, so that each project has its own.

use vstd::prelude::*;
use vstd::string::StringSliceAdditionalSpecFns;
use crate::digest::{md5_digest, md5_of, to_hex, hex_text};
use crate::text::{u64_decimal, decimal};

verus! {

/// `daemon-<md5 of the path, in lowercase hex>` followed by `suffix`.
pub open spec fn daemon_file_name(project_path: Seq<char>, suffix: Seq<char>) -> Seq<char> {
    "daemon-"@ + hex_text(md5_of(project_path_bytes(project_path))) + suffix
}

/// The UTF-8 bytes of a path's text.
pub open spec fn project_path_bytes(p: Seq<char>) -> Seq<u8> {
    vstd::utf8::encode_utf8(p)
}

/// The name of a project's file with the given suffix.
fn daemon_file(project_path: &str, suffix: &str) -> (r: String)
    ensures
        r@ == daemon_file_name(project_path@, suffix@),
{
    let digest = md5_digest(project_path.as_bytes());
    let hex = to_hex(&digest);
    let mut name = "daemon-".to_owned();
    name.append(hex.as_str());
    name.append(suffix);
    name
}

/// Name of the lock file of the daemon serving `project_path` (the
/// path's text).
pub fn lock_file_name(project_path: &str) -> (r: String)
    ensures
        r@ == daemon_file_name(project_path@, ".lock"@),
{
    daemon_file(project_path, ".lock")
}

/// Name of the info file of the daemon serving `project_path`.
pub fn info_file_name(project_path: &str) -> (r: String)
    ensures
        r@ == daemon_file_name(project_path@, ".info"@),
{
    daemon_file(project_path, ".info")
}

/// Refuses to start a second daemon: given the process id of a daemon
/// found running for the project, if any, an error naming it.
pub fn ensure_not_running(running_pid: Option<u32>) -> (r: Result<(), String>)
    ensures
        match running_pid {
            None => r is Ok,
            Some(pid) => r matches Err(m) && m@ == "Daemon is already running (PID: "@ + decimal(
                pid as nat,
            ) + ")"@,
        },
{
    match running_pid {
        None => Ok(()),
        Some(pid) => {
            let mut m = "Daemon is already running (PID: ".to_owned();
            let n = u64_decimal(pid as u64);
            m.append(n.as_str());
            m.append(")");
            Err(m)
        },
    }
}

} // verus!
