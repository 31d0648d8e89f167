use vstd::prelude::*;

verus! {

/// The unique identifiant of a panel
#[derive(Debug, Clone, Copy, PartialEq, Eq, Structural)]
pub struct PanelId(pub usize);

impl PanelId {
    /// the id made of the given usize
    pub fn from(u: usize) -> (id: PanelId)
        ensures
            id.0 == u,
    {
        PanelId(u)
    }

    /// get the inner usize
    pub fn as_usize(&self) -> (u: usize)
        ensures
            u == self.0,
    {
        self.0
    }
}

} // verus!
