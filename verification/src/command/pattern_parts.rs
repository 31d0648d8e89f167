//! The atoms and operators of a search pattern as typed in the input.

use vstd::prelude::*;
use crate::text::string_push;

verus! {

/// The operators that combine pattern atoms.
#[derive(Debug, Clone, Copy, PartialEq, Eq)]
pub enum PatternOperator {
    And,
    Or,
    Not,
}

/// An intermediate parsed representation of the raw string making a
/// pattern atom: up to three slash separated parts (search mode, core
/// pattern, flags). `/pat` gives `["", "pat"]`, `r/a/i` gives
/// `["r", "a", "i"]` and a bare `pat` gives `["pat"]`.
///
/// By construction there's always at least one part.
#[derive(Debug, Clone, PartialEq)]
pub struct PatternParts {
    parts: Vec<String>,
}

/// The view of a pattern atom: its parts, in order.
pub open spec fn parts_view(parts: Seq<String>) -> Seq<Seq<char>> {
    Seq::new(parts.len(), |i: int| parts[i]@)
}

impl View for PatternParts {
    type V = Seq<Seq<char>>;

    closed spec fn view(&self) -> Seq<Seq<char>> {
        parts_view(self.parts@)
    }
}

/// The view of a freshly created atom: one empty part.
pub open spec fn default_parts_view() -> Seq<Seq<char>> {
    seq![Seq::<char>::empty()]
}

/// The view of `parts` after `c` was appended to its last part.
pub open spec fn parts_push_char(parts: Seq<Seq<char>>, c: char) -> Seq<Seq<char>> {
    parts.update(parts.len() - 1, parts.last().push(c))
}

impl PatternParts {
    /// A pattern atom with one empty part.
    pub fn default() -> (pp: PatternParts)
        ensures
            pp@ == default_parts_view(),
    {
        let mut parts = Vec::new();
        parts.push(String::new());
        let pp = PatternParts { parts };
        assert(pp@ =~= default_parts_view());
        pp
    }

    /// Build an atom from its parts; `None` when there's no part.
    pub fn from_strs(strs: &[&str]) -> (res: Option<PatternParts>)
        ensures
            match res {
                Some(pp) => strs@.len() > 0 && pp@ == Seq::new(strs@.len(), |i: int| strs@[i]@),
                None => strs@.len() == 0,
            },
    {
        if strs.len() == 0 {
            return None;
        }
        let mut parts: Vec<String> = Vec::new();
        let mut i: usize = 0;
        while i < strs.len()
            invariant
                i <= strs@.len(),
                parts@.len() == i,
                forall|j: int| 0 <= j < i ==> #[trigger] parts@[j]@ == strs@[j]@,
            decreases strs@.len() - i,
        {
            parts.push(strs[i].to_owned());
            i += 1;
        }
        let pp = PatternParts { parts };
        assert(pp@ =~= Seq::new(strs@.len(), |i: int| strs@[i]@));
        Some(pp)
    }

    /// append a char to the last part
    pub fn push(&mut self, c: char)
        requires
            old(self)@.len() > 0,
        ensures
            final(self)@ == parts_push_char(old(self)@, c),
    {
        let last = self.parts.len() - 1;
        let mut s = self.parts[last].clone();
        string_push(&mut s, c);
        self.parts.set(last, s);
        assert(self@ =~= parts_push_char(old(self)@, c));
    }

    /// whether the atom is made of exactly a mode and a pattern, that
    /// is we're after the first slash but not after a second one
    pub fn is_between_slashes(&self) -> (res: bool)
        ensures
            res == (self@.len() == 2),
    {
        self.parts.len() == 2
    }

    /// start a new part (a slash was typed)
    pub fn add_part(&mut self)
        ensures
            final(self)@ == old(self)@.push(Seq::<char>::empty()),
    {
        self.parts.push(String::new());
        assert(self@ =~= old(self)@.push(Seq::<char>::empty()));
    }

    /// the number of parts
    pub fn len(&self) -> (n: usize)
        ensures
            n == self@.len(),
    {
        self.parts.len()
    }
}

} // verus!
