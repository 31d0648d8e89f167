//! The launch arguments related to the installation of the shell
//! function.

use vstd::prelude::*;
use crate::cli::args::{Args, CliShellInstallState};
use crate::errors::ProgramError;
use crate::text::str_eq;
use crate::command::verb_invocation::opt_string_view;

verus! {

/// launch arguments related to installation
/// (not used by the application after the first step)
#[derive(Debug)]
pub struct InstallLaunchArgs {
    /// installation is required
    pub install: Option<bool>,
    /// the state to set
    pub set_install_state: Option<CliShellInstallState>,
    /// shell function to print on stdout
    pub print_shell_function: Option<String>,
}

/// Whether installation is required, according to the `BR_INSTALL`
/// environment variable (`yes` or `no`) then to the `--install` argument,
/// which takes precedence.
pub open spec fn install_required(br_install: Option<Seq<char>>, install_arg: bool) -> Option<bool> {
    if install_arg {
        Some(true)
    } else {
        match br_install {
            Some(s) => if s == "yes"@ {
                Some(true)
            } else if s == "no"@ {
                Some(false)
            } else {
                None
            },
            None => None,
        }
    }
}

impl InstallLaunchArgs {
    /// the install related arguments, given the launch arguments and the
    /// value of the `BR_INSTALL` environment variable, if it's set
    pub fn from(args: &Args, br_install: Option<String>) -> (res: Result<InstallLaunchArgs, ProgramError>)
        ensures
            res matches Ok(ila) && {
                &&& ila.install == install_required(opt_string_view(br_install), args.install)
                &&& ila.set_install_state == args.set_install_state
                &&& opt_string_view(ila.print_shell_function) == opt_string_view(args.print_shell_function)
            },
    {
        let mut install = None;
        if let Some(s) = &br_install {
            if str_eq(s.as_str(), "yes") {
                install = Some(true);
            } else if str_eq(s.as_str(), "no") {
                install = Some(false);
            }
        }
        // the cli arguments may override the env var value
        if args.install {
            install = Some(true);
        }
        let print_shell_function = match &args.print_shell_function {
            Some(s) => Some(s.clone()),
            None => None,
        };
        Ok(InstallLaunchArgs {
            install,
            set_install_state: args.set_install_state,
            print_shell_function,
        })
    }
}

} // verus!
