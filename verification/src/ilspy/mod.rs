//! The .NET companion tool: decompiles assemblies through an in-process
//! ILSpy bridge and tells .NET assemblies from native binaries.
//!
//! - [`types`]: the records the bridge answers with.
//! - [`cli`]: its argument model and output-format choice.
//! - [`detect`]: PE header inspection and framework fingerprinting.
//! - [`format`]: text renderings of the bridge's records.
//! - [`doctor`]: the health report.
//! - [`commands`]: what the subcommands do with the bridge's answers.

pub mod types;
pub mod cli;
pub mod detect;
pub mod format;
pub mod doctor;
pub mod commands;
