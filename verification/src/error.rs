//! Errors of the Ghidra front end that carry plain values.

use vstd::prelude::*;
use crate::text::{u64_decimal, decimal};

verus! {

/// What went wrong, with the detail the user is shown.
#[derive(Clone, Debug)]
pub enum GhidraError {
    GhidraNotFound,
    ProjectNotFound(String),
    ProgramNotFound(String),
    ExecutionFailed(String),
    FilterParseError(String),
    InvalidFilter(String),
    FieldNotFound(String),
    InvalidFormat(String),
    InvalidDataType(String),
    ConfigError(String),
    CommandFailed(String),
    InvalidAddress(String),
    Timeout(u64),
    Other(String),
}

/// The message shown for an error.
pub open spec fn error_text(e: GhidraError) -> Seq<char> {
    match e {
        GhidraError::GhidraNotFound => "Ghidra installation not found. Set GHIDRA_INSTALL_DIR or run 'ghidra init'"@,
        GhidraError::ProjectNotFound(s) => "Ghidra project not found: "@ + s@,
        GhidraError::ProgramNotFound(s) => "Program not found: "@ + s@,
        GhidraError::ExecutionFailed(s) => "Failed to execute Ghidra: "@ + s@,
        GhidraError::FilterParseError(s) => "Failed to parse filter: "@ + s@,
        GhidraError::InvalidFilter(s) => "Invalid filter expression: "@ + s@,
        GhidraError::FieldNotFound(s) => "Field not found: "@ + s@,
        GhidraError::InvalidFormat(s) => "Invalid format: "@ + s@,
        GhidraError::InvalidDataType(s) => "Invalid data type: "@ + s@,
        GhidraError::ConfigError(s) => "Configuration error: "@ + s@,
        GhidraError::CommandFailed(s) => "Command failed: "@ + s@,
        GhidraError::InvalidAddress(s) => "Invalid address: "@ + s@,
        GhidraError::Timeout(secs) => "Analysis timeout after "@ + decimal(secs as nat) + " seconds"@,
        GhidraError::Other(s) => s@,
    }
}

/// `prefix` followed by `detail`.
fn prefixed(prefix: &str, detail: &String) -> (r: String)
    ensures
        r@ == prefix@ + detail@,
{
    let mut t = prefix.to_owned();
    t.append(detail.as_str());
    t
}

impl GhidraError {
    /// The message shown for this error.
    pub fn message(&self) -> (r: String)
        ensures
            r@ == error_text(*self),
    {
        match self {
            GhidraError::GhidraNotFound => "Ghidra installation not found. Set GHIDRA_INSTALL_DIR or run 'ghidra init'".to_owned(),
            GhidraError::ProjectNotFound(s) => prefixed("Ghidra project not found: ", s),
            GhidraError::ProgramNotFound(s) => prefixed("Program not found: ", s),
            GhidraError::ExecutionFailed(s) => prefixed("Failed to execute Ghidra: ", s),
            GhidraError::FilterParseError(s) => prefixed("Failed to parse filter: ", s),
            GhidraError::InvalidFilter(s) => prefixed("Invalid filter expression: ", s),
            GhidraError::FieldNotFound(s) => prefixed("Field not found: ", s),
            GhidraError::InvalidFormat(s) => prefixed("Invalid format: ", s),
            GhidraError::InvalidDataType(s) => prefixed("Invalid data type: ", s),
            GhidraError::ConfigError(s) => prefixed("Configuration error: ", s),
            GhidraError::CommandFailed(s) => prefixed("Command failed: ", s),
            GhidraError::InvalidAddress(s) => prefixed("Invalid address: ", s),
            GhidraError::Timeout(secs) => {
                let mut t = "Analysis timeout after ".to_owned();
                let n = u64_decimal(*secs);
                t.append(n.as_str());
                t.append(" seconds");
                t
            },
            GhidraError::Other(s) => s.clone(),
        }
    }
}

} // verus!
