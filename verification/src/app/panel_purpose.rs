use vstd::prelude::*;
use crate::app::selection::SelectionType;

verus! {

/// the possible special reason the panel was open
#[derive(Debug, Clone, Copy, PartialEq, Eq, Structural)]
pub enum PanelPurpose {
    NoPurpose,
    ArgEdition { arg_type: SelectionType },
    Preview,
}

impl PanelPurpose {
    pub fn is_arg_edition(self) -> (res: bool)
        ensures
            res == (self is ArgEdition),
    {
        matches!(self, PanelPurpose::ArgEdition { .. })
    }

    pub fn is_preview(self) -> (res: bool)
        ensures
            res == (self is Preview),
    {
        matches!(self, PanelPurpose::Preview)
    }
}

} // verus!
