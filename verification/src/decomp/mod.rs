//! Host side of Ghidra's native decompiler protocol.
//!
//! - [`wire`]: `0x00 0x00 0x01 <type>` frame markers and the scanners
//!   that find them in a byte stream.
//! - [`nibble`]: the `'A'..='P'` two-characters-per-byte encoding used
//!   inside byte frames.
//! - [`packed`]: the PackedEncode binary attributed-XML record codec.
//! - [`loader`]: ELF LOAD-segment model serving memory reads.
//! - [`callback`]: handlers for the decompiler's callback queries.

pub mod nibble;
pub mod packed;
pub mod wire;
pub mod loader;
pub mod callback;
