use vstd::prelude::*;
use crate::path::is_dir;

verus! {

/// the id of a line, starting at 1
/// (0 if not specified)
pub type LineNumber = usize;

/// What kind of path a selection (or a condition on a selection) is about.
#[derive(Debug, PartialEq, Eq, Clone, Copy, Structural)]
pub enum SelectionType {
    File,
    Directory,
    Any,
}

/// light information about the currently selected
/// file and maybe line number
#[derive(Debug, Clone, Copy)]
pub struct Selection<'s> {
    pub path: &'s str,
    /// the line number in the file (0 if none selected)
    pub line: LineNumber,
    pub stype: SelectionType,
    pub is_exe: bool,
}

impl SelectionType {
    /// whether this type fits the constraint: `Any` accepts every type,
    /// other constraints accept only themselves
    pub fn respects(self, constraint: Self) -> (res: bool)
        ensures
            res == (constraint == SelectionType::Any || self == constraint),
    {
        constraint == Self::Any || self == constraint
    }

    /// whether this condition accepts the optional type of a selection:
    /// `Any` accepts everything (including no selection), `File` and
    /// `Directory` accept only themselves
    pub fn is_respected_by(self, sel_type: Option<Self>) -> (res: bool)
        ensures
            res == match (self, sel_type) {
                (SelectionType::File, Some(SelectionType::File)) => true,
                (SelectionType::Directory, Some(SelectionType::Directory)) => true,
                (SelectionType::Any, _) => true,
                _ => false,
            },
    {
        match (self, sel_type) {
            (Self::File, Some(Self::File)) => true,
            (Self::Directory, Some(Self::Directory)) => true,
            (Self::Any, _) => true,
            _ => false,
        }
    }

    /// the type of a path knowing whether it's a directory
    pub fn from_is_dir(is_dir: bool) -> (st: Self)
        ensures
            st == (if is_dir { SelectionType::Directory } else { SelectionType::File }),
    {
        if is_dir {
            Self::Directory
        } else {
            Self::File
        }
    }

    /// the type of the path on disk: `Directory` for a directory, `File`
    /// for anything else, never `Any`
    pub fn from(path: &str) -> (st: Self)
        ensures
            st != SelectionType::Any,
    {
        Self::from_is_dir(is_dir(path))
    }
}

} // verus!
