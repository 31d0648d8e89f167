//! What the user asks for, from what was typed and the last key.

use vstd::prelude::*;
use crate::command::verb_invocation::VerbInvocation;

verus! {

/// An action required by the user
#[derive(Debug, Clone)]
pub enum Action {
    Unparsed,
    /// up (neg) or down (positive) in the list
    MoveSelection(i32),
    /// open the selected line
    OpenSelection,
    /// alternate open the selected line
    AltOpenSelection,
    /// verb invocation, unfinished
    VerbEdit(VerbInvocation),
    /// verb invocation, after the user hit enter
    VerbInvocate(VerbInvocation),
    /// verb call, without specific argument (using a trigger key)
    VerbIndex(usize),
    /// a pattern being edited
    FuzzyPatternEdit(String),
    /// a regex being edited (core & flags)
    RegexEdit(String, String),
    /// back to last app state, or clear pattern
    Back,
    /// goes to the next matching entry
    Next,
    /// goes to the previous matching entry
    Previous,
    /// goes to help state
    Help,
    /// usually a mouse click
    Click(u16, u16),
    /// always come after a simple click at same position
    DoubleClick(u16, u16),
    /// terminal was resized to those dimensions
    Resize(u16, u16),
}

} // verus!
