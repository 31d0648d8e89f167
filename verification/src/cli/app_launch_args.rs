//! The launch arguments kept for the life of the program.

use vstd::prelude::*;

verus! {

/// the parsed program launch arguments which are kept for the
/// life of the program
#[derive(Debug, Clone)]
pub struct AppLaunchArgs {
    /// what should be the initial root
    pub root: String,
    /// where to write the produced path (if required with --out)
    pub file_export_path: Option<String>,
    /// where to write the produced command (if required with --outcmd)
    pub cmd_export_path: Option<String>,
    /// commands passed as cli argument, still unparsed
    pub commands: Option<String>,
    /// an optional height to replace the screen's one
    pub height: Option<u16>,
    /// whether to remove all styles (including colors)
    pub no_style: bool,
    pub listen: Option<String>,
}

} // verus!
