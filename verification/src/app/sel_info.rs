//! Information about what is selected: nothing, one path, or the several
//! paths of the stage.

use vstd::prelude::*;
use crate::app::selection::{Selection, SelectionType};
use crate::path::{extension, is_dir, opt_str_view, path_extension};
use crate::stage::Stage;
use crate::text::str_eq;
use crate::verb::{FileTypeCondition, condition_accepts};

verus! {

/// Information regarding a potentially multiple set of selected paths
#[derive(Debug, Clone, Copy)]
pub enum SelInfo<'s> {
    NoSelection,
    One(Selection<'s>),
    /// by contract the stage contains at least 2 paths
    More(&'s Stage),
}

/// The extension shared by all the paths, when they all have the same one.
pub open spec fn common_extension(paths: Seq<Seq<char>>) -> Option<Seq<char>> {
    let first = path_extension(paths[0]);
    if first is Some && forall|k: int| 1 <= k < paths.len() ==> path_extension(#[trigger] paths[k]) == first {
        first
    } else {
        None
    }
}

/// Whether every answer of the disk (is it a directory, is it a file)
/// fits the condition; always for `Any`.
pub open spec fn answers_accepted(condition: FileTypeCondition, answers: Seq<(bool, bool)>) -> bool {
    condition is Any || forall|i: int| 0 <= i < answers.len()
        ==> condition_accepts(condition, #[trigger] answers[i].0, answers[i].1)
}

/// The type of a path knowing whether it's a directory.
pub open spec fn type_of_is_dir(is_dir: bool) -> SelectionType {
    if is_dir { SelectionType::Directory } else { SelectionType::File }
}

/// The common type of paths knowing for each whether it's a directory:
/// that of the first one when they all agree, else none.
pub open spec fn common_type(is_dirs: Seq<bool>) -> Option<SelectionType> {
    if forall|i: int| 0 <= i < is_dirs.len() ==> #[trigger] is_dirs[i] == is_dirs[0] {
        Some(type_of_is_dir(is_dirs[0]))
    } else {
        None
    }
}

/// Whether all the answers of the disk about the selected paths fit the
/// condition (true when there's no answer or the condition is `Any`).
pub fn accepted_by_answers(condition: FileTypeCondition, answers: &Vec<(bool, bool)>) -> (res: bool)
    ensures
        res == answers_accepted(condition, answers@),
{
    if condition == FileTypeCondition::Any {
        return true;
    }
    let mut i: usize = 0;
    while i < answers.len()
        invariant
            i <= answers@.len(),
            condition !is Any,
            forall|k: int| 0 <= k < i ==> condition_accepts(condition, #[trigger] answers@[k].0, answers@[k].1),
        decreases answers@.len() - i,
    {
        let (d, f) = answers[i];
        if !condition.accepts(d, f) {
            return false;
        }
        i += 1;
    }
    true
}

/// The common type of paths knowing for each whether it's a directory:
/// the type of the first one when they all have the same, else none.
pub fn common_type_of(is_dirs: &Vec<bool>) -> (res: Option<SelectionType>)
    requires
        is_dirs@.len() > 0,
    ensures
        res == common_type(is_dirs@),
{
    let first = is_dirs[0];
    let mut i: usize = 1;
    while i < is_dirs.len()
        invariant
            1 <= i <= is_dirs@.len(),
            first == is_dirs@[0],
            forall|k: int| 0 <= k < i ==> #[trigger] is_dirs@[k] == first,
        decreases is_dirs@.len() - i,
    {
        if is_dirs[i] != first {
            return None;
        }
        i += 1;
    }
    Some(SelectionType::from_is_dir(first))
}

/// A selection of the given path, with no line and with what it is on
/// disk (never `Any`).
pub open spec fn is_path_selection(sel: Selection, path: Seq<char>) -> bool {
    &&& sel.path@ == path
    &&& sel.line == 0
    &&& sel.stype != SelectionType::Any
    &&& !sel.is_exe
}

/// The number of selected paths.
pub open spec fn selection_count(info: SelInfo) -> nat {
    match info {
        SelInfo::NoSelection => 0,
        SelInfo::One(_) => 1,
        SelInfo::More(stage) => stage@.len(),
    }
}

impl<'a> SelInfo<'a> {
    /// The stage of a `More` selection holds at least two paths.
    pub open spec fn valid(self) -> bool {
        self matches SelInfo::More(stage) ==> stage@.len() >= 2
    }

    /// the selections: none, the one, or one per staged path
    pub fn to_selections(&self) -> (res: Vec<Selection<'a>>)
        ensures
            res@.len() == selection_count(*self),
            match *self {
                SelInfo::NoSelection => res@.len() == 0,
                SelInfo::One(sel) => res@ == seq![sel],
                SelInfo::More(stage) => res@.len() == stage@.len()
                    && forall|i: int| 0 <= i < res@.len() ==> is_path_selection(#[trigger] res@[i], stage@[i]),
            },
    {
        match self {
            SelInfo::NoSelection => Vec::new(),
            SelInfo::One(sel) => {
                let mut v = Vec::new();
                v.push(*sel);
                assert(v@ =~= seq![*sel]);
                v
            }
            SelInfo::More(stage) => {
                let paths = stage.paths();
                let mut v: Vec<Selection<'a>> = Vec::new();
                let mut i: usize = 0;
                while i < paths.len()
                    invariant
                        i <= paths@.len(),
                        paths@.len() == stage@.len(),
                        forall|k: int| 0 <= k < paths@.len() ==> #[trigger] paths@[k]@ == stage@[k],
                        v@.len() == i,
                        forall|k: int| 0 <= k < i ==> is_path_selection(#[trigger] v@[k], stage@[k]),
                    decreases paths@.len() - i,
                {
                    let path = paths[i].as_str();
                    v.push(Selection {
                        path,
                        line: 0,
                        stype: SelectionType::from(path),
                        is_exe: false,
                    });
                    i += 1;
                }
                v
            }
        }
    }

    /// the selection of the given path
    pub fn from_path(path: &'a str) -> (res: SelInfo<'a>)
        ensures
            res matches SelInfo::One(sel) && is_path_selection(sel, path@),
    {
        SelInfo::One(Selection {
            stype: SelectionType::from(path),
            line: 0,
            path,
            is_exe: false,
        })
    }

    /// the number of selected paths
    pub fn count_paths(&self) -> (n: usize)
        ensures
            n == selection_count(*self),
    {
        match self {
            SelInfo::NoSelection => 0,
            SelInfo::One(_) => 1,
            SelInfo::More(stage) => stage.len(),
        }
    }

    /// whether all the selected paths fit the condition (true when nothing
    /// is selected): the disk is asked about each path in turn, until one
    /// doesn't fit, and `accepted_by_answers` decides
    pub fn is_accepted_by(&self, condition: FileTypeCondition) -> (res: bool)
        ensures
            *self is NoSelection ==> res,
            condition is Any ==> res,
    {
        match self {
            SelInfo::NoSelection => true,
            SelInfo::One(sel) => condition.accepts_path(sel.path),
            SelInfo::More(stage) => {
                let paths = stage.paths();
                let mut answers: Vec<(bool, bool)> = Vec::new();
                let mut i: usize = 0;
                while i < paths.len()
                    invariant
                        i <= paths@.len(),
                        answers@.len() == i,
                        condition is Any ==> forall|k: int| 0 <= k < i ==> #[trigger] answers@[k] == (false, false),
                    decreases paths@.len() - i,
                {
                    let (d, f) = condition.disk_answers(paths[i].as_str());
                    answers.push((d, f));
                    i += 1;
                    if !condition.accepts(d, f) {
                        break;
                    }
                }
                accepted_by_answers(condition, &answers)
            }
        }
    }

    /// the type of the selected paths when they all have the same: the
    /// disk is asked whether each path is a directory, until one differs
    /// from the first, and `common_type_of` decides
    pub fn common_stype(&self) -> (res: Option<SelectionType>)
        requires
            self.valid(),
        ensures
            match *self {
                SelInfo::NoSelection => res is None,
                SelInfo::One(sel) => res == Some(sel.stype),
                SelInfo::More(_) => res != Some(SelectionType::Any),
            },
    {
        match self {
            SelInfo::NoSelection => None,
            SelInfo::One(sel) => Some(sel.stype),
            SelInfo::More(stage) => {
                let paths = stage.paths();
                let first = is_dir(paths[0].as_str());
                let mut is_dirs: Vec<bool> = Vec::new();
                is_dirs.push(first);
                let mut i: usize = 1;
                while i < paths.len()
                    invariant
                        1 <= i <= paths@.len(),
                        is_dirs@.len() == i,
                    decreases paths@.len() - i,
                {
                    let d = is_dir(paths[i].as_str());
                    is_dirs.push(d);
                    i += 1;
                    if d != first {
                        break;
                    }
                }
                common_type_of(&is_dirs)
            }
        }
    }

    /// the selection, when there's exactly one
    pub fn one_sel(self) -> (res: Option<Selection<'a>>)
        ensures
            res == match self {
                SelInfo::One(sel) => Some(sel),
                _ => None,
            },
    {
        match self {
            SelInfo::One(sel) => Some(sel),
            _ => None,
        }
    }

    /// the selection, or the selection of the first staged path
    pub fn first_sel(self) -> (res: Option<Selection<'a>>)
        ensures
            match self {
                SelInfo::NoSelection => res is None,
                SelInfo::One(sel) => res == Some(sel),
                SelInfo::More(stage) => if stage@.len() > 0 {
                    res matches Some(sel) && is_path_selection(sel, stage@[0])
                } else {
                    res is None
                },
            },
    {
        match self {
            SelInfo::One(sel) => Some(sel),
            SelInfo::More(stage) => {
                let paths = stage.paths();
                if paths.len() > 0 {
                    let path = paths[0].as_str();
                    Some(Selection {
                        path,
                        line: 0,
                        stype: SelectionType::from(path),
                        is_exe: false,
                    })
                } else {
                    None
                }
            }
            SelInfo::NoSelection => None,
        }
    }

    /// the path, when there's exactly one selection
    pub fn one_path(self) -> (res: Option<&'a str>)
        ensures
            res == match self {
                SelInfo::One(sel) => Some(sel.path),
                _ => None,
            },
    {
        match self.one_sel() {
            Some(sel) => Some(sel.path),
            None => None,
        }
    }

    /// the extension shared by all the selected paths, if any
    pub fn extension(&self) -> (res: Option<&str>)
        requires
            self.valid(),
        ensures
            opt_str_view(res) == match *self {
                SelInfo::NoSelection => None,
                SelInfo::One(sel) => path_extension(sel.path@),
                SelInfo::More(stage) => common_extension(stage@),
            },
    {
        match self {
            SelInfo::NoSelection => None,
            SelInfo::One(sel) => extension(sel.path),
            SelInfo::More(stage) => {
                let paths = stage.paths();
                let common = extension(paths[0].as_str());
                if common.is_none() {
                    return None;
                }
                let mut i: usize = 1;
                while i < paths.len()
                    invariant
                        *self == SelInfo::More(stage),
                        1 <= i <= paths@.len(),
                        paths@.len() == stage@.len(),
                        forall|k: int| 0 <= k < paths@.len() ==> #[trigger] paths@[k]@ == stage@[k],
                        opt_str_view(common) == path_extension(stage@[0]),
                        common is Some,
                        forall|k: int| 1 <= k < i ==> path_extension(#[trigger] stage@[k]) == path_extension(stage@[0]),
                    decreases paths@.len() - i,
                {
                    let ext = extension(paths[i].as_str());
                    let same = match (ext, common) {
                        (Some(e), Some(c)) => str_eq(e, c),
                        _ => false,
                    };
                    if !same {
                        return None;
                    }
                    i += 1;
                }
                common
            }
        }
    }
}

} // verus!
