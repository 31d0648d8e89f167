//! The arguments passed on launch of the application.

pub mod args;
pub mod install_launch_args;
pub mod app_launch_args;
pub mod authorization;
pub mod initial_root;
