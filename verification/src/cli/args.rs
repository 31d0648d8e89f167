//! The launch arguments, once parsed.

use vstd::prelude::*;

verus! {

/// Launch arguments
#[derive(Debug, Clone)]
pub struct Args {
    /// Print help information
    pub help: bool,
    /// print the version
    pub version: bool,
    /// Semicolon separated paths to specific config files
    pub conf: Option<String>,
    /// Show the last modified date of files and directories
    pub dates: bool,
    /// Don't show the last modified date
    pub no_dates: bool,
    /// Only show folders
    pub only_folders: bool,
    /// Show folders and files alike
    pub no_only_folders: bool,
    /// Show filesystem info on top
    pub show_root_fs: bool,
    /// Show git statuses on files and stats on repo
    pub show_git_info: bool,
    /// Don't show git statuses on files and stats on repo
    pub no_show_git_info: bool,
    /// Only show files having an interesting git status, including hidden ones
    pub git_status: bool,
    /// Show hidden files
    pub hidden: bool,
    /// Don't show hidden files
    pub no_hidden: bool,
    /// Show git ignored files
    pub git_ignored: bool,
    /// Don't show git ignored files
    pub no_git_ignored: bool,
    /// Show permissions
    pub permissions: bool,
    /// Don't show permissions
    pub no_permissions: bool,
    /// Show the size of files and directories
    pub sizes: bool,
    /// Don't show sizes
    pub no_sizes: bool,
    /// Sort by count (only show one level of the tree)
    pub sort_by_count: bool,
    /// Sort by date (only show one level of the tree)
    pub sort_by_date: bool,
    /// Sort by size (only show one level of the tree)
    pub sort_by_size: bool,
    /// Same as sort-by-type-dirs-first
    pub sort_by_type: bool,
    /// Do not show the tree, even if allowed by sorting mode.
    pub no_tree: bool,
    /// Show the tree, when allowed by sorting mode.
    pub tree: bool,
    /// Sort by type, directories first (only show one level of the tree)
    pub sort_by_type_dirs_first: bool,
    /// Sort by type, directories last (only show one level of the tree)
    pub sort_by_type_dirs_last: bool,
    /// Don't sort
    pub no_sort: bool,
    /// Sort by size, show ignored and hidden files
    pub whale_spotting: bool,
    /// Trim the root too and don't show a scrollbar
    pub trim_root: bool,
    /// Don't trim the root level, show a scrollbar
    pub no_trim_root: bool,
    /// Where to write the produced cmd (if any)
    pub outcmd: Option<String>,
    /// Semicolon separated commands to execute
    pub cmd: Option<String>,
    /// Whether to have styles and colors (default is usually OK)
    pub color: TriBool,
    /// Height (if you don't want to fill the screen or for file export)
    pub height: Option<u16>,
    /// Install or reinstall the br shell function
    pub install: bool,
    /// The install state to write
    pub set_install_state: Option<CliShellInstallState>,
    /// Print to stdout the br function for a given shell
    pub print_shell_function: Option<String>,
    /// A socket to listen to for commands
    pub listen: Option<String>,
    /// Ask for the current root of the remote broot
    pub get_root: bool,
    /// Write default conf files in given directory
    pub write_default_conf: Option<String>,
    /// A socket to send commands to
    pub send: Option<String>,
    /// Root Directory
    pub root: Option<String>,
}

/// This is an Option<bool> but I didn't find any way to configure
/// clap to parse an Option<T> as I want
#[derive(Debug, Clone, Copy, PartialEq, Eq, Structural)]
pub enum TriBool {
    Auto,
    Yes,
    No,
}

impl TriBool {
    /// the boolean, computed by `f` when it's `Auto`
    pub fn unwrap_or_else<F>(self, f: F) -> (res: bool)
        where
            F: FnOnce() -> bool,
        requires
            self is Auto ==> f.requires(()),
        ensures
            match self {
                TriBool::Auto => f.ensures((), res),
                TriBool::Yes => res,
                TriBool::No => !res,
            },
    {
        match self {
            TriBool::Auto => f(),
            TriBool::Yes => true,
            TriBool::No => false,
        }
    }
}

/// The state of the installation of the shell function, as given on
/// launch
#[derive(Debug, Clone, Copy, PartialEq, Eq, Structural)]
pub enum CliShellInstallState {
    /// before any install, this is the initial state
    Undefined,
    Refused,
    Installed,
}

/// The `Debug` writing of a string: between double quotes, with
/// escapes.
pub uninterp spec fn debug_str(s: Seq<char>) -> Seq<char>;

/// The `Debug` writing of a string.
///
/// Trusted: the `Debug` formatting of `str` (`format!("{s:?}")`), which
/// depends on the string only.
#[verifier::external_body]
fn debug_quoted(s: &str) -> (res: String)
    ensures
        res@ == debug_str(s@),
{
    format!("{s:?}")
}

impl CliShellInstallState {
    /// the state written in lowercase, or an error
    pub fn parse(state: &str) -> (res: Result<CliShellInstallState, String>)
        ensures
            match res {
                Ok(s) => (state@ == "undefined"@ && s == CliShellInstallState::Undefined)
                    || (state@ == "refused"@ && s == CliShellInstallState::Refused)
                    || (state@ == "installed"@ && s == CliShellInstallState::Installed),
                Err(e) => state@ != "undefined"@ && state@ != "refused"@ && state@ != "installed"@
                    && e@ == "unexpected install state: "@ + debug_str(state@),
            },
    {
        if crate::text::str_eq(state, "undefined") {
            Ok(CliShellInstallState::Undefined)
        } else if crate::text::str_eq(state, "refused") {
            Ok(CliShellInstallState::Refused)
        } else if crate::text::str_eq(state, "installed") {
            Ok(CliShellInstallState::Installed)
        } else {
            let mut e = "unexpected install state: ".to_owned();
            let quoted = debug_quoted(state);
            crate::text::push_str(&mut e, quoted.as_str());
            Err(e)
        }
    }
}

/// The install state written in lowercase, or the error message.
pub open spec fn install_state_of(state: Seq<char>) -> Result<CliShellInstallState, Seq<char>> {
    if state == "undefined"@ {
        Ok(CliShellInstallState::Undefined)
    } else if state == "refused"@ {
        Ok(CliShellInstallState::Refused)
    } else if state == "installed"@ {
        Ok(CliShellInstallState::Installed)
    } else {
        Err("unexpected install state: "@ + debug_str(state))
    }
}

/// The view of a parsed install state.
pub open spec fn install_state_view(r: Result<CliShellInstallState, String>) -> Result<CliShellInstallState, Seq<char>> {
    match r {
        Ok(s) => Ok(s),
        Err(e) => Err(e@),
    }
}

impl std::str::FromStr for CliShellInstallState {
    type Err = String;

    fn from_str(state: &str) -> (res: Result<Self, Self::Err>)
        ensures
            install_state_view(res) == install_state_of(state@),
    {
        let res = CliShellInstallState::parse(state);
        proof {
            reveal_strlit("undefined");
            reveal_strlit("refused");
            reveal_strlit("installed");
            assert("undefined"@.len() == 9 && "refused"@.len() == 7 && "installed"@.len() == 9);
            assert("undefined"@[0] != "installed"@[0]);
        }
        res
    }
}

} // verus!
