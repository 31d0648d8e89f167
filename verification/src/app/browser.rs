//! What a tree state does for the internals it handles itself: going
//! back, moving the selection, scrolling, opening panels at its sides,
//! changing its root, searching further.
//!
//! The tree itself is summed up by the facts the decisions read; the
//! moves and scrolls are carried out on the tree by the caller.

use vstd::prelude::*;
use crate::app::cmd_result::HDir;
use crate::app::panel_purpose::PanelPurpose;
use crate::app::state::{get_arg, invocation_args, numeric_arg};
use crate::command::internal::{Internal, InternalExecution};
use crate::command::verb_invocation::{VerbInvocation, opt_string_view};

verus! {

/// What the decisions of a tree state read of it and of its panel.
#[derive(Debug, Clone, Copy)]
pub struct BrowserFacts {
    /// whether a filtered tree (the result of a search) is displayed
    pub filtered: bool,
    /// whether the search which gave the filtered tree was total
    pub total_search: bool,
    /// the index of the selected line in the unfiltered tree
    pub selection: usize,
    /// the index of the selected line in the displayed tree
    pub displayed_selection: usize,
    /// whether the root of the displayed tree has a parent
    pub root_has_parent: bool,
    /// whether the selected path is a file
    pub selected_is_file: bool,
    /// whether the panel is the leftest one
    pub is_first_panel: bool,
    /// whether the panel is the rightest one
    pub is_last_panel: bool,
    /// the number of panels
    pub panels_count: usize,
    /// the number of panels allowed
    pub max_panels_count: usize,
    pub has_preview_panel: bool,
    pub has_stage_panel: bool,
    /// whether the panel was open to edit a verb argument
    pub arg_edition: bool,
    /// the number of lines of a page of the tree
    pub page_height: i32,
}

/// Why an internal can't be executed by a tree state.
#[derive(Debug, Clone, Copy, PartialEq, Eq, Structural)]
pub enum BrowserError {
    /// going up from a root which has no parent
    NoParentFound,
    /// changing the root to its parent when it has none
    RootHasNoParent,
    /// changing the root to the selected line when it's the root
    NoSelectedLine,
    /// a total search when there was no search
    NoSearch,
    /// a total search when the search was already total
    AlreadyTotal,
}

/// What a tree state does for an internal.
#[derive(Debug, Clone, Copy, PartialEq, Eq, Structural)]
pub enum BrowserAction {
    /// leave the filtered tree, selecting in the tree its selected path
    Unfilter,
    /// select the root line
    SelectRoot,
    /// go back to the previous state
    PopState,
    /// focus (or select) the path, as the internal asks
    Focus,
    Select,
    /// focus the parent of the root
    UpTree { in_new_panel: bool },
    /// open the selection, staying in the application
    OpenStay { filter: bool, in_new_panel: bool },
    /// move the selection by this count of lines
    MoveSelection { count: i32, cycle: bool },
    PreviousDir,
    NextDir,
    PreviousMatch,
    NextMatch,
    PreviousSameDepth,
    NextSameDepth,
    /// scroll by this count of lines, or, when it's not possible, select
    /// the last line (for a positive count) or the first one
    Scroll { count: i32 },
    /// open a panel on the selected path
    NewPanelOnSelection { purpose: PanelPurpose, direction: HDir },
    /// open a panel on the path of the invocation argument (or the root)
    /// to edit an argument
    NewArgEditionPanel,
    /// close the panel, validating its purpose
    ValidatePurpose,
    /// let the application handle it
    HandleInApp(Internal),
    GoToParent { in_new_panel: bool },
    PrintTree,
    RootUp { in_new_panel: bool },
    RootDown { in_new_panel: bool },
    /// stage all the files matching the pattern, opening the stage panel
    /// when there's none
    StageAll { open_stage_panel: bool },
    SelectFirst,
    SelectLast,
    /// search again, ranking all the matches
    TotalSearch,
    Trash,
    Quit,
    Error(BrowserError),
    /// the generic handling of internals
    Generic,
}

/// What a tree state does for the internal, given the effective bang, the
/// numeric argument of the internal, whether there's an input invocation
/// and the facts: line moves are by the argument (1 by default), page
/// moves by the page height; a panel is opened at a side only from the
/// panel at that side and when more panels are allowed, else the
/// application moves the focus.
pub open spec fn browser_action_of(
    internal: Internal,
    bang: bool,
    count: i32,
    has_invocation: bool,
    f: BrowserFacts,
) -> BrowserAction {
    match internal {
        Internal::back => if f.filtered {
            BrowserAction::Unfilter
        } else if f.selection > 0 {
            BrowserAction::SelectRoot
        } else {
            BrowserAction::PopState
        },
        Internal::focus => BrowserAction::Focus,
        Internal::select => BrowserAction::Select,
        Internal::up_tree => if f.root_has_parent {
            BrowserAction::UpTree { in_new_panel: bang }
        } else {
            BrowserAction::Error(BrowserError::NoParentFound)
        },
        Internal::open_stay => BrowserAction::OpenStay { filter: false, in_new_panel: bang },
        Internal::open_stay_filter => BrowserAction::OpenStay { filter: true, in_new_panel: bang },
        Internal::line_down => BrowserAction::MoveSelection { count, cycle: true },
        Internal::line_up => BrowserAction::MoveSelection { count: (-count) as i32, cycle: true },
        Internal::line_down_no_cycle => BrowserAction::MoveSelection { count, cycle: false },
        Internal::line_up_no_cycle => BrowserAction::MoveSelection { count: (-count) as i32, cycle: false },
        Internal::previous_dir => BrowserAction::PreviousDir,
        Internal::next_dir => BrowserAction::NextDir,
        Internal::previous_match => BrowserAction::PreviousMatch,
        Internal::next_match => BrowserAction::NextMatch,
        Internal::previous_same_depth => BrowserAction::PreviousSameDepth,
        Internal::next_same_depth => BrowserAction::NextSameDepth,
        Internal::page_down => BrowserAction::Scroll { count: f.page_height },
        Internal::page_up => BrowserAction::Scroll { count: (-f.page_height) as i32 },
        Internal::panel_left => if f.is_first_panel && f.panels_count < f.max_panels_count {
            BrowserAction::NewPanelOnSelection { purpose: PanelPurpose::NoPurpose, direction: HDir::Left }
        } else {
            BrowserAction::HandleInApp(Internal::panel_left_no_open)
        },
        Internal::panel_left_no_open => BrowserAction::HandleInApp(Internal::panel_left_no_open),
        Internal::panel_right => if f.is_last_panel && f.panels_count < f.max_panels_count {
            BrowserAction::NewPanelOnSelection {
                purpose: if f.selected_is_file && !f.has_preview_panel {
                    PanelPurpose::Preview
                } else {
                    PanelPurpose::NoPurpose
                },
                direction: HDir::Right,
            }
        } else {
            BrowserAction::HandleInApp(Internal::panel_right_no_open)
        },
        Internal::panel_right_no_open => BrowserAction::HandleInApp(Internal::panel_right_no_open),
        Internal::parent => BrowserAction::GoToParent { in_new_panel: bang },
        Internal::print_tree => BrowserAction::PrintTree,
        Internal::root_up => if f.root_has_parent {
            BrowserAction::RootUp { in_new_panel: bang }
        } else {
            BrowserAction::Error(BrowserError::RootHasNoParent)
        },
        Internal::root_down => if f.displayed_selection > 0 {
            BrowserAction::RootDown { in_new_panel: bang }
        } else {
            BrowserAction::Error(BrowserError::NoSelectedLine)
        },
        Internal::stage_all_files => BrowserAction::StageAll { open_stage_panel: !f.has_stage_panel },
        Internal::select_first => BrowserAction::SelectFirst,
        Internal::select_last => BrowserAction::SelectLast,
        Internal::start_end_panel => if f.arg_edition {
            BrowserAction::ValidatePurpose
        } else if has_invocation {
            BrowserAction::NewArgEditionPanel
        } else {
            BrowserAction::NewPanelOnSelection { purpose: PanelPurpose::NoPurpose, direction: HDir::Right }
        },
        Internal::total_search => if !f.filtered {
            BrowserAction::Error(BrowserError::NoSearch)
        } else if f.total_search {
            BrowserAction::Error(BrowserError::AlreadyTotal)
        } else {
            BrowserAction::TotalSearch
        },
        Internal::trash => BrowserAction::Trash,
        Internal::quit => BrowserAction::Quit,
        _ => BrowserAction::Generic,
    }
}

/// Paging and line moves go in opposite directions: `page_down` scrolls
/// forward by the page height and `page_up` backward by as much;
/// `line_down` moves the selection forward by the count of lines and
/// `line_up` backward by as much, both cycling (the `_no_cycle` ones
/// likewise, without cycling).
pub proof fn lemma_moves_are_opposite(bang: bool, count: i32, has_invocation: bool, f: BrowserFacts)
    requires
        f.page_height > i32::MIN,
        count > i32::MIN,
    ensures
        browser_action_of(Internal::page_down, bang, count, has_invocation, f)
            == (BrowserAction::Scroll { count: f.page_height }),
        browser_action_of(Internal::page_up, bang, count, has_invocation, f)
            == (BrowserAction::Scroll { count: (0 - f.page_height) as i32 }),
        browser_action_of(Internal::line_down, bang, count, has_invocation, f)
            == (BrowserAction::MoveSelection { count, cycle: true }),
        browser_action_of(Internal::line_up, bang, count, has_invocation, f)
            == (BrowserAction::MoveSelection { count: (0 - count) as i32, cycle: true }),
        browser_action_of(Internal::line_down_no_cycle, bang, count, has_invocation, f)
            == (BrowserAction::MoveSelection { count, cycle: false }),
        browser_action_of(Internal::line_up_no_cycle, bang, count, has_invocation, f)
            == (BrowserAction::MoveSelection { count: (0 - count) as i32, cycle: false }),
{
}

/// Going back first leaves a search, then goes to the root line, and only
/// then leaves the state; going up or changing the root to its parent is
/// refused exactly when the root has no parent; changing the root to the
/// selected line is refused exactly when the root line is selected.
pub proof fn lemma_back_and_root_moves(bang: bool, count: i32, has_invocation: bool, f: BrowserFacts)
    ensures
        (browser_action_of(Internal::back, bang, count, has_invocation, f) == BrowserAction::Unfilter) == f.filtered,
        (browser_action_of(Internal::back, bang, count, has_invocation, f) == BrowserAction::PopState)
            == (!f.filtered && f.selection == 0),
        (browser_action_of(Internal::up_tree, bang, count, has_invocation, f) is Error) == !f.root_has_parent,
        (browser_action_of(Internal::root_up, bang, count, has_invocation, f) is Error) == !f.root_has_parent,
        (browser_action_of(Internal::root_down, bang, count, has_invocation, f) is Error) == (f.displayed_selection == 0),
        (browser_action_of(Internal::total_search, bang, count, has_invocation, f) == BrowserAction::TotalSearch)
            == (f.filtered && !f.total_search),
{
}

/// A panel is opened at a side only from the panel at that side and when
/// more panels are allowed; otherwise the application moves the focus. The
/// panel opened at the right is a preview exactly when a file is selected
/// and there's no preview yet.
pub proof fn lemma_side_panels(bang: bool, count: i32, has_invocation: bool, f: BrowserFacts)
    ensures
        (browser_action_of(Internal::panel_left, bang, count, has_invocation, f)
            == (BrowserAction::HandleInApp(Internal::panel_left_no_open)))
            == !(f.is_first_panel && f.panels_count < f.max_panels_count),
        (browser_action_of(Internal::panel_right, bang, count, has_invocation, f)
            == (BrowserAction::HandleInApp(Internal::panel_right_no_open)))
            == !(f.is_last_panel && f.panels_count < f.max_panels_count),
        f.is_last_panel && f.panels_count < f.max_panels_count ==> (browser_action_of(
            Internal::panel_right,
            bang,
            count,
            has_invocation,
            f,
        ) matches BrowserAction::NewPanelOnSelection { purpose, direction } && direction == HDir::Right
            && (purpose == PanelPurpose::Preview) == (f.selected_is_file && !f.has_preview_panel)),
{
}

impl BrowserError {
    /// The message displayed for the error; for `RootHasNoParent` it
    /// follows the root (written as `Path`'s `Debug` writes it).
    pub fn message(self) -> (m: &'static str)
        ensures
            m@ == match self {
                BrowserError::NoParentFound => "no parent found"@,
                BrowserError::RootHasNoParent => " has no parent"@,
                BrowserError::NoSelectedLine => "No selected line"@,
                BrowserError::NoSearch => "this verb can be used only after a search"@,
                BrowserError::AlreadyTotal => "search was already total: all possible matches have been ranked"@,
            },
    {
        match self {
            BrowserError::NoParentFound => "no parent found",
            BrowserError::RootHasNoParent => " has no parent",
            BrowserError::NoSelectedLine => "No selected line",
            BrowserError::NoSearch => "this verb can be used only after a search",
            BrowserError::AlreadyTotal => "search was already total: all possible matches have been ranked",
        }
    }
}

/// What a tree state does for an internal: the bang is the one of the
/// input invocation, if any, else the one of the internal execution; the
/// count of lines of the line moves is the numeric argument (1 by
/// default); a move up by the most negative count is refused by
/// `requires`, as negating it overflows.
pub fn browser_action(
    internal_exec: &InternalExecution,
    input_invocation: Option<&VerbInvocation>,
    facts: BrowserFacts,
) -> (action: BrowserAction)
    requires
        facts.page_height > i32::MIN,
        (internal_exec.internal == Internal::line_up || internal_exec.internal == Internal::line_up_no_cycle)
            ==> numeric_arg(invocation_args(input_invocation), opt_string_view(internal_exec.arg), 1) > i32::MIN,
    ensures
        action == browser_action_of(
            internal_exec.internal,
            match input_invocation {
                Some(inv) => inv.bang,
                None => internal_exec.bang,
            },
            numeric_arg(invocation_args(input_invocation), opt_string_view(internal_exec.arg), 1),
            input_invocation is Some,
            facts,
        ),
{
    let bang = match input_invocation {
        Some(inv) => inv.bang,
        None => internal_exec.bang,
    };
    let f = facts;
    match internal_exec.internal {
        Internal::back => if f.filtered {
            BrowserAction::Unfilter
        } else if f.selection > 0 {
            BrowserAction::SelectRoot
        } else {
            BrowserAction::PopState
        },
        Internal::focus => BrowserAction::Focus,
        Internal::select => BrowserAction::Select,
        Internal::up_tree => if f.root_has_parent {
            BrowserAction::UpTree { in_new_panel: bang }
        } else {
            BrowserAction::Error(BrowserError::NoParentFound)
        },
        Internal::open_stay => BrowserAction::OpenStay { filter: false, in_new_panel: bang },
        Internal::open_stay_filter => BrowserAction::OpenStay { filter: true, in_new_panel: bang },
        Internal::line_down => BrowserAction::MoveSelection {
            count: get_arg(input_invocation, internal_exec, 1),
            cycle: true,
        },
        Internal::line_up => BrowserAction::MoveSelection {
            count: -get_arg(input_invocation, internal_exec, 1),
            cycle: true,
        },
        Internal::line_down_no_cycle => BrowserAction::MoveSelection {
            count: get_arg(input_invocation, internal_exec, 1),
            cycle: false,
        },
        Internal::line_up_no_cycle => BrowserAction::MoveSelection {
            count: -get_arg(input_invocation, internal_exec, 1),
            cycle: false,
        },
        Internal::previous_dir => BrowserAction::PreviousDir,
        Internal::next_dir => BrowserAction::NextDir,
        Internal::previous_match => BrowserAction::PreviousMatch,
        Internal::next_match => BrowserAction::NextMatch,
        Internal::previous_same_depth => BrowserAction::PreviousSameDepth,
        Internal::next_same_depth => BrowserAction::NextSameDepth,
        Internal::page_down => BrowserAction::Scroll { count: f.page_height },
        Internal::page_up => BrowserAction::Scroll { count: -f.page_height },
        Internal::panel_left => if f.is_first_panel && f.panels_count < f.max_panels_count {
            BrowserAction::NewPanelOnSelection { purpose: PanelPurpose::NoPurpose, direction: HDir::Left }
        } else {
            BrowserAction::HandleInApp(Internal::panel_left_no_open)
        },
        Internal::panel_left_no_open => BrowserAction::HandleInApp(Internal::panel_left_no_open),
        Internal::panel_right => if f.is_last_panel && f.panels_count < f.max_panels_count {
            let purpose = if f.selected_is_file && !f.has_preview_panel {
                PanelPurpose::Preview
            } else {
                PanelPurpose::NoPurpose
            };
            BrowserAction::NewPanelOnSelection { purpose, direction: HDir::Right }
        } else {
            BrowserAction::HandleInApp(Internal::panel_right_no_open)
        },
        Internal::panel_right_no_open => BrowserAction::HandleInApp(Internal::panel_right_no_open),
        Internal::parent => BrowserAction::GoToParent { in_new_panel: bang },
        Internal::print_tree => BrowserAction::PrintTree,
        Internal::root_up => if f.root_has_parent {
            BrowserAction::RootUp { in_new_panel: bang }
        } else {
            BrowserAction::Error(BrowserError::RootHasNoParent)
        },
        Internal::root_down => if f.displayed_selection > 0 {
            BrowserAction::RootDown { in_new_panel: bang }
        } else {
            BrowserAction::Error(BrowserError::NoSelectedLine)
        },
        Internal::stage_all_files => BrowserAction::StageAll { open_stage_panel: !f.has_stage_panel },
        Internal::select_first => BrowserAction::SelectFirst,
        Internal::select_last => BrowserAction::SelectLast,
        Internal::start_end_panel => if f.arg_edition {
            BrowserAction::ValidatePurpose
        } else if input_invocation.is_some() {
            BrowserAction::NewArgEditionPanel
        } else {
            BrowserAction::NewPanelOnSelection { purpose: PanelPurpose::NoPurpose, direction: HDir::Right }
        },
        Internal::total_search => if !f.filtered {
            BrowserAction::Error(BrowserError::NoSearch)
        } else if f.total_search {
            BrowserAction::Error(BrowserError::AlreadyTotal)
        } else {
            BrowserAction::TotalSearch
        },
        Internal::trash => BrowserAction::Trash,
        Internal::quit => BrowserAction::Quit,
        _ => BrowserAction::Generic,
    }
}

} // verus!
