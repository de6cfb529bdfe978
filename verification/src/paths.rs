//! Filesystem path types that the argument and configuration models hold.

use vstd::prelude::*;

verus! {

/// An owned filesystem path, carried through unchanged.
#[verifier::external_type_specification]
#[verifier::external_body]
pub struct ExPathBuf(std::path::PathBuf);

/// A borrowed filesystem path, carried through unchanged.
#[verifier::external_type_specification]
#[verifier::external_body]
pub struct ExPath(std::path::Path);

/// A copy of a path.
///
/// `PathBuf`'s `Clone` copies the underlying buffer, so the copy is the
/// same path.
pub assume_specification[ <std::path::PathBuf as Clone>::clone ](p: &std::path::PathBuf) -> (r: std::path::PathBuf)
    ensures
        r == *p,
;

} // verus!
