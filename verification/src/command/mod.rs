pub mod pattern_parts;
pub mod pattern_tree;
pub mod verb_invocation;
pub mod parts;
pub mod command;
pub mod internal;
pub mod scroll;
pub mod sel;
pub mod completion;
pub mod sequence;
pub mod action;
pub mod panel_input;
