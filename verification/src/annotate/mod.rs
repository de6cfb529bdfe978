//! Annotation transfer between builds of the same binary: functions are
//! matched by a fingerprint of their PCode, and their names and
//! signatures carried over.
//!
//! - [`hash`]: the fingerprint.
//! - [`apply`]: what the export and apply passes decide.

pub mod hash;
pub mod apply;
