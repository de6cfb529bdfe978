//! Verified core of a command-line front end for the Ghidra reverse
//! engineering suite and its .NET companion tool.
//!
//! The crate holds the protocol codecs used to talk to Ghidra's native
//! decompiler (frame markers, A-P nibble bytes, PackedEncode records),
//! the ELF segment loader that answers its memory reads, the command
//! argument model, output-format selection, the daemon's routing, request
//! handling, command queue and result cache, PCode fingerprinting for
//! carrying annotations between builds, filter field lookup, and the
//! PE/.NET detection, listing and reporting logic of the companion tool.

pub mod text;
pub mod decomp;
pub mod cli;
pub mod command_text;
pub mod paths;
pub mod ilspy;
pub mod error;
pub mod format;
pub mod config;
pub mod digest;
pub mod daemon;
pub mod annotate;
pub mod filter;
