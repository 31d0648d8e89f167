//! Core logic of a tree-browsing file manager: parsing of what the user
//! types, panel bookkeeping, selections and status lines.

pub mod text;
pub mod path;
pub mod stage;
pub mod verb;
pub mod tree_options;
pub mod command;
pub mod app;
pub mod errors;
pub mod cli;
pub mod conf;
pub mod toml_table;
