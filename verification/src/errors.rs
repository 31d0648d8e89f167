//! Errors of the configuration and of the program.

use vstd::prelude::*;

verus! {

/// An error in the configuration.
#[derive(Debug)]
pub enum ConfError {
    /// a panel reference which isn't one of the accepted forms
    InvalidPanelReference { raw: String },
    /// a count of threads out of the accepted range
    InvalidThreadsCount { count: usize },
    /// a configuration text which isn't valid TOML
    Toml { message: String },
}

/// An error of the program.
#[derive(Debug)]
pub enum ProgramError {
    /// a verb which isn't known
    UnknownVerb { name: String },
    /// a verb name which is the start of several verb names
    AmbiguousVerbName { name: String },
}

} // verus!
