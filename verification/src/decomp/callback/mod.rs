//! Handlers for the callback queries the decompiler sends to the host.

pub mod getbytes;
