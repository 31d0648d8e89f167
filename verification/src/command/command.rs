//! Commands, the parsed form of what the user types or triggers.

use vstd::prelude::*;
use crate::command::internal::Internal;
use crate::command::parts::{CommandParts, parse_command_parts};
use crate::command::pattern_tree::{PatternTree, TreeState, pattern_tree_state};
use crate::command::verb_invocation::{VerbInvocation, VerbInvocationView};

verus! {

/// The index of a verb in the verb store
pub type VerbId = usize;

/// a command which may result in a change in the application state.
///
/// It may come from a shortcut, from the parsed input, from an argument
/// given on launch.
#[derive(Debug)]
pub enum Command {
    /// no command
    NoCommand,

    /// a verb invocation, unfinished
    /// (user didn't hit enter)
    VerbEdit(VerbInvocation),

    /// verb invocation, finished
    /// (coming from --cmd, or after the user hit enter)
    VerbInvocate(VerbInvocation),

    /// call of an internal done without the input
    /// (using a trigger key for example)
    Internal {
        internal: Internal,
        input_invocation: Option<VerbInvocation>,
    },

    /// call of a verb done without the input
    /// (using a trigger key for example)
    VerbTrigger {
        verb_id: VerbId,
        input_invocation: Option<VerbInvocation>,
    },

    /// a pattern being edited
    PatternEdit {
        raw: String,
        expr: PatternTree,
    },

    /// a mouse click
    Click(u16, u16),

    /// a mouse double-click
    /// Always come after a simple click at same position
    DoubleClick(u16, u16),
}

/// The mathematical value of a command.
pub enum CommandView {
    NoCommand,
    VerbEdit(VerbInvocationView),
    VerbInvocate(VerbInvocationView),
    Internal { internal: Internal, input_invocation: Option<VerbInvocationView> },
    VerbTrigger { verb_id: VerbId, input_invocation: Option<VerbInvocationView> },
    PatternEdit { raw: Seq<char>, expr: TreeState },
    Click(u16, u16),
    DoubleClick(u16, u16),
}

pub open spec fn opt_vi_view(o: Option<VerbInvocation>) -> Option<VerbInvocationView> {
    match o {
        Some(vi) => Some(vi@),
        None => None,
    }
}

impl View for Command {
    type V = CommandView;

    open spec fn view(&self) -> CommandView {
        match self {
            Command::NoCommand => CommandView::NoCommand,
            Command::VerbEdit(vi) => CommandView::VerbEdit(vi@),
            Command::VerbInvocate(vi) => CommandView::VerbInvocate(vi@),
            Command::Internal { internal, input_invocation } => CommandView::Internal {
                internal: *internal,
                input_invocation: opt_vi_view(*input_invocation),
            },
            Command::VerbTrigger { verb_id, input_invocation } => CommandView::VerbTrigger {
                verb_id: *verb_id,
                input_invocation: opt_vi_view(*input_invocation),
            },
            Command::PatternEdit { raw, expr } => CommandView::PatternEdit {
                raw: raw@,
                expr: pattern_tree_state(*expr),
            },
            Command::Click(x, y) => CommandView::Click(*x, *y),
            Command::DoubleClick(x, y) => CommandView::DoubleClick(*x, *y),
        }
    }
}

/// The command made of parsed parts: a verb invocation, finished or not,
/// when there's one; else, when finished, the opening of the selection;
/// else the edition of the pattern.
pub open spec fn command_from_parts(
    raw_pattern: Seq<char>,
    tree: TreeState,
    verb_invocation: Option<VerbInvocationView>,
    finished: bool,
) -> CommandView {
    match verb_invocation {
        Some(vi) => if finished {
            CommandView::VerbInvocate(vi)
        } else {
            CommandView::VerbEdit(vi)
        },
        None => if finished {
            CommandView::Internal { internal: Internal::open_stay, input_invocation: None }
        } else {
            CommandView::PatternEdit { raw: raw_pattern, expr: tree }
        },
    }
}

/// The command made of a raw input.
pub open spec fn command_from_raw(raw: Seq<char>, finished: bool) -> CommandView {
    let cp = parse_command_parts(raw);
    command_from_parts(cp.raw_pattern, cp.tree, cp.verb_invocation, finished)
}

impl Command {
    pub fn empty() -> (c: Command)
        ensures
            c@ == CommandView::NoCommand,
    {
        Command::NoCommand
    }

    /// whether this is the empty command
    pub fn is_none(&self) -> (res: bool)
        ensures
            res == (self@ is NoCommand),
    {
        matches!(self, Command::NoCommand)
    }

    /// the verb invocation of the command, if any
    pub fn as_verb_invocation(&self) -> (res: Option<&VerbInvocation>)
        ensures
            opt_vi_view(match res { Some(vi) => Some(*vi), None => None }) == match self@ {
                CommandView::VerbEdit(vi) => Some(vi),
                CommandView::VerbInvocate(vi) => Some(vi),
                CommandView::Internal { input_invocation, .. } => input_invocation,
                CommandView::VerbTrigger { input_invocation, .. } => input_invocation,
                _ => None,
            },
    {
        match self {
            Self::VerbEdit(vi) => Some(vi),
            Self::VerbInvocate(vi) => Some(vi),
            Self::Internal { input_invocation, .. } => input_invocation.as_ref(),
            Self::VerbTrigger { input_invocation, .. } => input_invocation.as_ref(),
            _ => None,
        }
    }

    /// build a command from the parsed string representation
    ///
    /// The command being finished is the difference between
    /// a command being edited and a command launched (which
    /// happens on enter in the input).
    pub fn from_parts(cp: CommandParts, finished: bool) -> (c: Command)
        ensures
            c@ == command_from_parts(cp@.raw_pattern, cp@.tree, cp@.verb_invocation, finished),
    {
        let CommandParts { raw_pattern, pattern, verb_invocation } = cp;
        if let Some(verb_invocation) = verb_invocation {
            if finished {
                Self::VerbInvocate(verb_invocation)
            } else {
                Self::VerbEdit(verb_invocation)
            }
        } else if finished {
            Self::Internal { internal: Internal::open_stay, input_invocation: None }
        } else {
            Self::PatternEdit { raw: raw_pattern, expr: pattern }
        }
    }

    /// tells whether this action is a verb being invocated on enter
    /// in the input field
    pub fn is_verb_invocated_from_input(&self) -> (res: bool)
        ensures
            res == (self@ is VerbInvocate),
    {
        matches!(self, Self::VerbInvocate(_))
    }

    /// create a command from a raw input.
    ///
    /// `finished` makes the command an executed form,
    /// it's equivalent to using the Enter key in the Gui.
    pub fn from_raw(raw: &str, finished: bool) -> (c: Command)
        ensures
            c@ == command_from_raw(raw@, finished),
    {
        let parts = CommandParts::from(raw);
        Self::from_parts(parts, finished)
    }
}

} // verus!
