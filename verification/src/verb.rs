//! Conditions verbs put on what they're applied to.

use vstd::prelude::*;
use crate::path::{is_dir, is_file};

verus! {

/// A condition on the type of file a verb may be applied to.
#[derive(Debug, Clone, Copy, PartialEq, Eq, Structural)]
pub enum FileTypeCondition {
    Any,
    Directory,
    File,
}

/// Whether a path fits the condition, knowing whether it is a directory
/// and whether it is a file.
pub open spec fn condition_accepts(condition: FileTypeCondition, is_dir: bool, is_file: bool) -> bool {
    match condition {
        FileTypeCondition::Any => true,
        FileTypeCondition::Directory => is_dir,
        FileTypeCondition::File => is_file,
    }
}

impl FileTypeCondition {
    /// Whether a path fits the condition, knowing whether it's a directory
    /// and whether it's a file.
    pub fn accepts(self, is_dir: bool, is_file: bool) -> (res: bool)
        ensures
            res == condition_accepts(self, is_dir, is_file),
    {
        match self {
            FileTypeCondition::Any => true,
            FileTypeCondition::Directory => is_dir,
            FileTypeCondition::File => is_file,
        }
    }

    /// What the condition needs to know of the path, asked to the disk:
    /// nothing for `Any`, whether it's a directory for `Directory`, whether
    /// it's a file for `File`. What isn't asked is answered `false`.
    pub fn disk_answers(self, path: &str) -> (res: (bool, bool))
        ensures
            self is Any ==> res == (false, false),
            self is Directory ==> !res.1,
            self is File ==> !res.0,
    {
        match self {
            FileTypeCondition::Any => (false, false),
            FileTypeCondition::Directory => (is_dir(path), false),
            FileTypeCondition::File => (false, is_file(path)),
        }
    }

    /// Whether the path fits the condition: always for `Any`, else
    /// depending on what the path is on disk (see `accepts` for the
    /// answer given what the disk says).
    pub fn accepts_path(self, path: &str) -> (res: bool)
        ensures
            self is Any ==> res,
    {
        let (d, f) = self.disk_answers(path);
        self.accepts(d, f)
    }
}

} // verus!
