//! The initial root of the tree and the file to select in it.

use vstd::prelude::*;

verus! {

/// Why the path given at launch can't be the initial root.
#[derive(Debug, Clone, Copy, PartialEq, Eq, Structural)]
pub enum InitialRootError {
    /// nothing is at the path
    NotFound,
    /// the path is neither a directory nor something in a directory
    NotADirectory,
}

/// Determine the initial root folder to show, and the optional initial
/// file to open in preview, from the launch path (canonicalized) and what
/// the disk says of it: a directory is the root; for anything else its
/// parent is the root and the path the file.
pub fn initial_root_file(
    path: String,
    exists: bool,
    is_dir: bool,
    parent: Option<String>,
) -> (res: Result<(String, Option<String>), InitialRootError>)
    ensures
        !exists ==> res == Err::<(String, Option<String>), InitialRootError>(InitialRootError::NotFound),
        exists && is_dir ==> (res matches Ok((root, file)) && root@ == path@ && file is None),
        exists && !is_dir && parent is Some ==> (res matches Ok((root, Some(file)))
            && root@ == parent->0@ && file@ == path@),
        exists && !is_dir && parent is None
            ==> res == Err::<(String, Option<String>), InitialRootError>(InitialRootError::NotADirectory),
{
    if !exists {
        return Err(InitialRootError::NotFound);
    }
    if is_dir {
        return Ok((path, None));
    }
    match parent {
        Some(p) => Ok((p, Some(path))),
        None => Err(InitialRootError::NotADirectory),
    }
}

} // verus!
