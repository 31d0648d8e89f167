//! The stage: a set of paths the user gathered to act on them together.

use vstd::prelude::*;
use crate::text::strings_view;

verus! {

/// The staged paths, in the order they were staged.
#[derive(Debug, Clone)]
pub struct Stage {
    paths: Vec<String>,
}

impl View for Stage {
    type V = Seq<Seq<char>>;

    closed spec fn view(&self) -> Seq<Seq<char>> {
        strings_view(self.paths@)
    }
}

impl Stage {
    /// a stage holding the given paths
    pub fn from_paths(paths: Vec<String>) -> (stage: Stage)
        ensures
            stage@ == strings_view(paths@),
    {
        Stage { paths }
    }

    /// the staged paths
    pub fn paths(&self) -> (paths: &Vec<String>)
        ensures
            strings_view(paths@) == self@,
    {
        &self.paths
    }

    /// the number of staged paths
    pub fn len(&self) -> (n: usize)
        ensures
            n == self@.len(),
    {
        self.paths.len()
    }

    pub fn is_empty(&self) -> (res: bool)
        ensures
            res == (self@.len() == 0),
    {
        self.paths.len() == 0
    }

    /// remove all the staged paths
    pub fn clear(&mut self)
        ensures
            final(self)@ == Seq::<Seq<char>>::empty(),
    {
        self.paths = Vec::new();
        assert(strings_view(self.paths@) =~= Seq::<Seq<char>>::empty());
    }
}

} // verus!
