//! Validation for the source collector. Whether the library path names a
//! directory is established by the caller at the filesystem boundary and
//! handed in as a plain value; the rule enforced here is that collection
//! proceeds only on directories.

use vstd::prelude::*;

verus! {

/// Why collection was refused.
#[derive(Clone, Copy, Debug, PartialEq, Eq)]
pub enum CollectError {
    /// The library to collect must be a directory.
    NotADirectory,
}

/// Accepts a library for collection exactly when its path names a directory.
#[allow(unused_variables)]
pub fn collect(lib: &str, lib_is_dir: bool) -> (r: Result<(), CollectError>)
    ensures
        r is Ok <==> lib_is_dir,
        r is Err ==> r->Err_0 == CollectError::NotADirectory,
{
    if lib_is_dir {
        Ok(())
    } else {
        Err(CollectError::NotADirectory)
    }
}

} // verus!
