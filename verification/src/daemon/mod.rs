//! The daemon that keeps a Ghidra bridge process running per project.
//!
//! - [`rpc`]: requests, responses and what each side does with them.
//! - [`process`]: lock and info files that tell whether a daemon runs.
//! - [`cache`]: the result cache with a time-to-live.
//! - [`route`]: which bridge command each CLI command becomes.
//! - [`handler`]: what the daemon does with each request it receives.
//! - [`queue`]: the queue that runs commands one at a time.

use vstd::prelude::*;
use std::path::PathBuf;

pub mod rpc;
pub mod process;
pub mod cache;
pub mod route;
pub mod handler;
pub mod queue;

verus! {

/// Where the bridge runs: the project it serves and the Ghidra
/// installation it is started from.
pub struct BridgeConfig {
    /// Path to the Ghidra project directory.
    pub project_path: PathBuf,
    /// Ghidra installation directory.
    pub ghidra_install_dir: PathBuf,
}

} // verus!
