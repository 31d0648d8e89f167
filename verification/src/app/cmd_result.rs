use vstd::prelude::*;

verus! {

/// Either left or right
#[derive(Debug, Clone, Copy, PartialEq, Eq, Structural)]
pub enum HDir {
    Left,
    Right,
}

} // verus!
