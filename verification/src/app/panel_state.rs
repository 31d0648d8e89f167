//! What the states of the panels share: the generic handling of the
//! internals a state has no specific behavior for.

use vstd::prelude::*;
use crate::app::mode::Mode;
use crate::app::panel_id::PanelId;
use crate::app::panel_reference::PanelReference;
use crate::command::internal::{Internal, InternalExecution};
use crate::command::verb_invocation::VerbInvocation;
use crate::stage::Stage;
use crate::tree_options::{OptionsChange, options_change_for, options_change_of};

pub use crate::app::state::get_arg;

verus! {

/// How a file is previewed.
#[derive(Debug, Clone, Copy, PartialEq, Eq, Structural)]
pub enum PreviewMode {
    Image,
    Text,
    Hex,
}

/// What a state does for an internal it has no specific behavior for.
#[derive(Debug, Clone, PartialEq, Eq)]
pub enum GenericAction {
    /// go back to the previous state
    PopState,
    /// copy the selected path to the clipboard
    CopyPath,
    ClosePanel { validate_purpose: bool, panel_ref: PanelReference },
    /// open the filesystems state, in a new panel or not
    Filesystems { in_new_panel: bool },
    /// open the help state, in a new panel or not
    Help { in_new_panel: bool },
    SetMode(Mode),
    /// the internal can't be executed
    DisplayError(String),
    /// open the selection, quitting
    OpenLeave,
    /// open a preview of the selection, or close the preview
    OpenPreview { mode: Option<PreviewMode>, close_if_open: bool },
    /// build a state with changed tree options, in a new panel or not
    ChangeOptions { change: OptionsChange, in_new_panel: bool },
    /// let the application handle it
    HandleInApp(Internal),
    /// empty the stage, then close its panel if there's one
    ClearStage { stage_panel: Option<PanelId> },
    Stage,
    Unstage,
    ToggleStage,
    OpenStagingArea,
    PrintPath,
    PrintRelativePath,
    Refresh,
    Quit,
    Keep,
}

/// Whether the internal is executed with a bang: as typed in the input
/// when there's an invocation, else as configured.
pub open spec fn effective_bang(input_invocation: Option<&VerbInvocation>, internal_exec: InternalExecution) -> bool {
    match input_invocation {
        Some(inv) => inv.bang,
        None => internal_exec.bang,
    }
}

/// Closing the panel with the given id, or nothing when there's none.
pub open spec fn close_or_keep(id: Option<PanelId>) -> GenericAction {
    match id {
        Some(id) => GenericAction::ClosePanel { validate_purpose: false, panel_ref: PanelReference::Id(id) },
        None => GenericAction::Keep,
    }
}

/// The action of a mode change: refused when the application isn't modal.
pub open spec fn mode_action(mode: Mode, modal: bool) -> (GenericAction, Seq<char>) {
    if modal {
        (GenericAction::SetMode(mode), Seq::empty())
    } else {
        (GenericAction::Keep, "modal mode not enabled in configuration"@)
    }
}

/// What a state does for the internal, given whether it's executed with a
/// bang, the ids of the preview and stage panels, and whether the
/// application is modal. A `DisplayError` stands for the error of a mode
/// change on an application which isn't modal.
pub open spec fn generic_action_of(
    internal: Internal,
    bang: bool,
    preview_panel: Option<PanelId>,
    stage_panel: Option<PanelId>,
    modal: bool,
) -> GenericAction {
    match options_change_of(internal) {
        Some(change) => GenericAction::ChangeOptions { change, in_new_panel: bang },
        None => match internal {
            Internal::back => GenericAction::PopState,
            Internal::copy_line | Internal::copy_path => GenericAction::CopyPath,
            Internal::close_panel_ok => GenericAction::ClosePanel { validate_purpose: true, panel_ref: PanelReference::Active },
            Internal::close_panel_cancel => GenericAction::ClosePanel { validate_purpose: false, panel_ref: PanelReference::Active },
            Internal::filesystems => GenericAction::Filesystems { in_new_panel: bang && preview_panel is None },
            Internal::help => GenericAction::Help { in_new_panel: bang && preview_panel is None },
            Internal::open_leave => GenericAction::OpenLeave,
            Internal::open_preview => GenericAction::OpenPreview { mode: None, close_if_open: false },
            Internal::preview_image => GenericAction::OpenPreview { mode: Some(PreviewMode::Image), close_if_open: false },
            Internal::preview_text => GenericAction::OpenPreview { mode: Some(PreviewMode::Text), close_if_open: false },
            Internal::preview_binary => GenericAction::OpenPreview { mode: Some(PreviewMode::Hex), close_if_open: false },
            Internal::toggle_preview => GenericAction::OpenPreview { mode: None, close_if_open: true },
            Internal::close_preview => close_or_keep(preview_panel),
            Internal::escape => GenericAction::HandleInApp(Internal::escape),
            Internal::panel_left | Internal::panel_left_no_open => GenericAction::HandleInApp(Internal::panel_left_no_open),
            Internal::panel_right | Internal::panel_right_no_open => GenericAction::HandleInApp(Internal::panel_right_no_open),
            Internal::toggle_second_tree => GenericAction::HandleInApp(Internal::toggle_second_tree),
            Internal::clear_stage => GenericAction::ClearStage { stage_panel },
            Internal::stage => GenericAction::Stage,
            Internal::unstage => GenericAction::Unstage,
            Internal::toggle_stage => GenericAction::ToggleStage,
            Internal::close_staging_area => close_or_keep(stage_panel),
            Internal::open_staging_area => if stage_panel is None { GenericAction::OpenStagingArea } else { GenericAction::Keep },
            Internal::toggle_staging_area => if stage_panel is None { GenericAction::OpenStagingArea } else { close_or_keep(stage_panel) },
            Internal::set_syntax_theme => GenericAction::HandleInApp(Internal::set_syntax_theme),
            Internal::print_path => GenericAction::PrintPath,
            Internal::print_relative_path => GenericAction::PrintRelativePath,
            Internal::refresh => GenericAction::Refresh,
            Internal::quit => GenericAction::Quit,
            _ => GenericAction::Keep,
        },
    }
}

/// The action for the internals which aren't mode changes nor option
/// changes.
fn other_action(
    internal: Internal,
    bang: bool,
    preview_panel: Option<PanelId>,
    stage_panel: Option<PanelId>,
) -> (action: GenericAction)
    requires
        options_change_of(internal) is None,
        internal != Internal::mode_input,
        internal != Internal::mode_command,
    ensures
        action == generic_action_of(internal, bang, preview_panel, stage_panel, false),
{
    match internal {
        Internal::back => GenericAction::PopState,
        Internal::copy_line | Internal::copy_path => GenericAction::CopyPath,
        Internal::close_panel_ok => GenericAction::ClosePanel { validate_purpose: true, panel_ref: PanelReference::Active },
        Internal::close_panel_cancel => GenericAction::ClosePanel { validate_purpose: false, panel_ref: PanelReference::Active },
        Internal::filesystems => GenericAction::Filesystems { in_new_panel: bang && preview_panel.is_none() },
        Internal::help => GenericAction::Help { in_new_panel: bang && preview_panel.is_none() },
        Internal::open_leave => GenericAction::OpenLeave,
        Internal::open_preview => GenericAction::OpenPreview { mode: None, close_if_open: false },
        Internal::preview_image => GenericAction::OpenPreview { mode: Some(PreviewMode::Image), close_if_open: false },
        Internal::preview_text => GenericAction::OpenPreview { mode: Some(PreviewMode::Text), close_if_open: false },
        Internal::preview_binary => GenericAction::OpenPreview { mode: Some(PreviewMode::Hex), close_if_open: false },
        Internal::toggle_preview => GenericAction::OpenPreview { mode: None, close_if_open: true },
        Internal::close_preview => close_panel_or_keep(preview_panel),
        Internal::escape => GenericAction::HandleInApp(Internal::escape),
        Internal::panel_left | Internal::panel_left_no_open => GenericAction::HandleInApp(Internal::panel_left_no_open),
        Internal::panel_right | Internal::panel_right_no_open => GenericAction::HandleInApp(Internal::panel_right_no_open),
        Internal::toggle_second_tree => GenericAction::HandleInApp(Internal::toggle_second_tree),
        Internal::clear_stage => GenericAction::ClearStage { stage_panel },
        Internal::stage => GenericAction::Stage,
        Internal::unstage => GenericAction::Unstage,
        Internal::toggle_stage => GenericAction::ToggleStage,
        Internal::close_staging_area => close_panel_or_keep(stage_panel),
        Internal::open_staging_area => if stage_panel.is_none() { GenericAction::OpenStagingArea } else { GenericAction::Keep },
        Internal::toggle_staging_area => if stage_panel.is_none() { GenericAction::OpenStagingArea } else { close_panel_or_keep(stage_panel) },
        Internal::set_syntax_theme => GenericAction::HandleInApp(Internal::set_syntax_theme),
        Internal::print_path => GenericAction::PrintPath,
        Internal::print_relative_path => GenericAction::PrintRelativePath,
        Internal::refresh => GenericAction::Refresh,
        Internal::quit => GenericAction::Quit,
        _ => GenericAction::Keep,
    }
}

fn close_panel_or_keep(id: Option<PanelId>) -> (action: GenericAction)
    ensures
        action == close_or_keep(id),
{
    match id {
        Some(id) => GenericAction::ClosePanel { validate_purpose: false, panel_ref: PanelReference::Id(id) },
        None => GenericAction::Keep,
    }
}

/// What a state does for an internal it has no specific behavior for:
/// the effective bang is the one of the input invocation, if any, else
/// the one of the internal execution; a new panel is opened with a bang
/// only when there's no preview; mode changes are refused when the
/// application isn't modal.
pub fn generic_action(
    internal_exec: &InternalExecution,
    input_invocation: Option<&VerbInvocation>,
    preview_panel: Option<PanelId>,
    stage_panel: Option<PanelId>,
    modal: bool,
) -> (action: GenericAction)
    ensures
        ({
            let bang = effective_bang(input_invocation, *internal_exec);
            let internal = internal_exec.internal;
            if internal == Internal::mode_input || internal == Internal::mode_command {
                let mode = if internal == Internal::mode_input { Mode::Input } else { Mode::Command };
                match action {
                    GenericAction::DisplayError(e) => !modal && e@ == mode_action(mode, modal).1,
                    _ => modal && action == mode_action(mode, modal).0,
                }
            } else {
                action == generic_action_of(internal, bang, preview_panel, stage_panel, modal)
            }
        }),
{
    let bang = match input_invocation {
        Some(inv) => inv.bang,
        None => internal_exec.bang,
    };
    let internal = internal_exec.internal;
    if internal == Internal::mode_input || internal == Internal::mode_command {
        let mode = if internal == Internal::mode_input { Mode::Input } else { Mode::Command };
        if modal {
            GenericAction::SetMode(mode)
        } else {
            GenericAction::DisplayError("modal mode not enabled in configuration".to_owned())
        }
    } else {
        match options_change_for(internal) {
            Some(change) => GenericAction::ChangeOptions { change, in_new_panel: bang },
            None => other_action(internal, bang, preview_panel, stage_panel),
        }
    }
}

/// Carry out what a generic action does to the stage: a `ClearStage`
/// empties it and comes down to closing the stage panel, if there's one;
/// any other action leaves the stage as it is and is returned unchanged.
pub fn apply_to_stage(action: GenericAction, stage: &mut Stage) -> (res: GenericAction)
    ensures
        match action {
            GenericAction::ClearStage { stage_panel } => final(stage)@.len() == 0
                && res == close_or_keep(stage_panel),
            _ => final(stage)@ == old(stage)@ && res == action,
        },
{
    match action {
        GenericAction::ClearStage { stage_panel } => {
            stage.clear();
            close_panel_or_keep(stage_panel)
        },
        _ => action,
    }
}

} // verus!
