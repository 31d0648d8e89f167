use vstd::prelude::*;

verus! {

/// modes are used when the application is configured to
/// be "modal". If not, the only mode is the `Input` mode.
#[derive(Debug, Clone, Copy, PartialEq, Eq, Structural)]
pub enum Mode {
    Input,
    Command,
}

} // verus!
