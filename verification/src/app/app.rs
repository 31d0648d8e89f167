//! What the application does to its panels once a command was handled by
//! the state of the active panel: closing, focusing, opening panels,
//! stacking and removing states.

use vstd::prelude::*;
use crate::app::app_panels::{
    AppPanelsAndInputs, AppPanelsView, PanelView, added_panel, close_refused, closed_panels,
    count_of, first_non_tree, first_of_type, index_of_ref, new_panel_error, new_panel_refused,
    panels_wf, panel_at, removed_state, rightest_inactive_tree, with_active_panel,
};
use crate::app::cmd_result::HDir;
use crate::app::panel_purpose::PanelPurpose;
use crate::app::panel_reference::PanelReference;
use crate::app::standard_status::opt_view;
use crate::app::state_type::PanelStateType;

verus! {

/// What a handled command asks of the panels.
#[derive(Debug, Clone)]
pub enum PanelsAction {
    /// close the referenced panel (when the reference designates none: the
    /// preview when it's one of two panels, else the active one)
    ClosePanel { panel_ref: PanelReference },
    /// focus the panel at the left, the rightest after the leftest
    FocusPanelLeft,
    /// focus the panel at the right, the leftest after the rightest
    FocusPanelRight,
    /// focus the panel at the left, or close the rightest one when the
    /// leftest is active
    PanelLeftNoOpen,
    /// focus the panel at the right, or close the leftest one when the
    /// rightest is active
    PanelRightNoOpen,
    /// focus the staging area, if there's one
    FocusStagingArea,
    /// open a second tree panel (closing a panel which isn't a tree when
    /// there are already as many panels as allowed), or close the rightest
    /// inactive tree when there are already two trees; `tree_built` tells
    /// whether a tree could be built on the closest directory of the
    /// selected path (there's a selected path and the directory could be
    /// read): when it couldn't, no panel is opened. The new tree has no
    /// pattern, so its input starts empty
    ToggleSecondTree { activate: bool, tree_built: bool },
    /// open a new panel, whose state has the given starting input
    NewPanel {
        state_type: PanelStateType,
        starting_input: String,
        purpose: PanelPurpose,
        direction: HDir,
        activate: bool,
    },
    /// stack a new state, with the given starting input, on the active panel
    NewState { state_type: PanelStateType, starting_input: String },
    /// remove the current state of the active panel (or the panel)
    PopState,
}

/// What became of the application once the panels did what was asked.
#[derive(Debug)]
pub struct PanelsOutcome {
    /// whether the application must quit (there was nothing left to close)
    pub quitting: bool,
    /// the error to display, if any
    pub error: Option<String>,
}

/// The panels once the panel at `idx` was closed, when it can be.
pub open spec fn close_result(v: AppPanelsView, idx: int) -> AppPanelsView {
    if close_refused(v, idx) { v } else { closed_panels(v, idx) }
}

/// The index of the panel to close for a reference: the designated panel
/// or, when there's none, the preview when it's one of two panels, else the
/// active panel.
pub open spec fn close_target(v: AppPanelsView, r: PanelReference) -> int {
    match index_of_ref(v, r) {
        Some(i) => i,
        None => if v.panels.len() == 2 && first_of_type(v, PanelStateType::Preview) is Some {
            1
        } else {
            v.active_panel_idx as int
        },
    }
}

/// The index of the panel at the left, cycling.
pub open spec fn focus_left(active: int, len: int) -> int {
    (active + len - 1) % len
}

/// The index of the panel at the right, cycling.
pub open spec fn focus_right(active: int, len: int) -> int {
    (active + 1) % len
}

/// The panels with the panel at `idx` active, when there's one.
pub open spec fn activated(v: AppPanelsView, idx: int) -> AppPanelsView {
    if 0 <= idx < v.panels.len() {
        AppPanelsView { active_panel_idx: idx as nat, ..v }
    } else {
        v
    }
}

/// The panels, whether the application must quit, and the error to
/// display, once the panels did what the action asks.
pub open spec fn panels_action_result(
    v: AppPanelsView,
    action: PanelsAction,
    max_panels_count: int,
    quit_on_last_cancel: bool,
) -> (AppPanelsView, bool, Option<Seq<char>>) {
    let len = v.panels.len() as int;
    let a = v.active_panel_idx as int;
    match action {
        PanelsAction::ClosePanel { panel_ref } => {
            let idx = close_target(v, panel_ref);
            (close_result(v, idx), close_refused(v, idx), None)
        },
        PanelsAction::FocusPanelLeft => (activated(v, focus_left(a, len)), false, None),
        PanelsAction::FocusPanelRight => (activated(v, focus_right(a, len)), false, None),
        PanelsAction::PanelLeftNoOpen => if a == 0 {
            (close_result(v, len - 1), false, None)
        } else {
            (activated(v, a - 1), false, None)
        },
        PanelsAction::PanelRightNoOpen => if a + 1 == len {
            (close_result(v, 0), false, None)
        } else {
            (activated(v, a + 1), false, None)
        },
        PanelsAction::FocusStagingArea => (
            match first_of_type(v, PanelStateType::Stage) {
                Some(i) => AppPanelsView { active_panel_idx: i as nat, ..v },
                None => v,
            },
            false,
            None,
        ),
        PanelsAction::ToggleSecondTree { activate, tree_built } => if count_of(v.panels, PanelStateType::Tree) < 2 {
            let v1 = if len >= max_panels_count {
                match first_non_tree(v) {
                    Some(i) => close_result(v, i),
                    None => v,
                }
            } else {
                v
            };
            (
                if tree_built {
                    added_panel(v1, PanelStateType::Tree, Seq::empty(), PanelPurpose::NoPurpose, HDir::Right, activate)
                } else {
                    v1
                },
                false,
                None,
            )
        } else {
            (
                match rightest_inactive_tree(v) {
                    Some(i) => close_result(v, i),
                    None => v,
                },
                false,
                None,
            )
        },
        PanelsAction::NewPanel { state_type, starting_input, purpose, direction, activate } => if new_panel_refused(
            v,
            state_type,
        ) {
            (v, false, Some(new_panel_error(state_type)))
        } else {
            (added_panel(v, state_type, starting_input@, purpose, direction, activate), false, None)
        },
        PanelsAction::NewState { state_type, starting_input } => {
            let p = v.panels[a];
            (
                with_active_panel(v, PanelView {
                    states: p.states.push(state_type),
                    starting_inputs: p.starting_inputs.push(starting_input@),
                    input: starting_input@,
                    ..p
                }),
                false,
                None,
            )
        },
        PanelsAction::PopState => {
            let removed = v.panels[a].states.len() > 1 || !close_refused(v, a);
            (removed_state(v), !removed && quit_on_last_cancel, None)
        },
    }
}

proof fn lemma_focus(a: int, len: int)
    requires
        0 <= a < len,
    ensures
        focus_left(a, len) == if a == 0 { len - 1 } else { a - 1 },
        focus_right(a, len) == if a + 1 == len { 0 } else { a + 1 },
{
    if a == 0 {
        vstd::arithmetic::div_mod::lemma_small_mod((len - 1) as nat, len as nat);
    } else {
        vstd::arithmetic::div_mod::lemma_mod_add_multiples_vanish(a - 1, len);
        vstd::arithmetic::div_mod::lemma_small_mod((a - 1) as nat, len as nat);
    }
    if a + 1 == len {
        vstd::arithmetic::div_mod::lemma_mod_self_0(len);
    } else {
        vstd::arithmetic::div_mod::lemma_small_mod((a + 1) as nat, len as nat);
    }
}

/// Focusing the panel at the left then the one at the right (or the
/// reverse) comes back to the panel which was focused.
pub proof fn lemma_focus_left_right(a: int, len: int)
    requires
        0 <= a < len,
    ensures
        0 <= focus_left(a, len) < len,
        0 <= focus_right(a, len) < len,
        focus_right(focus_left(a, len), len) == a,
        focus_left(focus_right(a, len), len) == a,
{
    lemma_focus(a, len);
    lemma_focus(focus_left(a, len), len);
    lemma_focus(focus_right(a, len), len);
}

/// Moving the focus without opening: from a panel which isn't the leftest,
/// `PanelLeftNoOpen` activates the panel at its left; from one which isn't
/// the rightest, `PanelRightNoOpen` activates the panel at its right. No
/// panel is closed or changed, the application doesn't quit and there's no
/// error. Focusing left or right cycles: from the leftest, the focus goes
/// to the rightest, and conversely.
pub proof fn lemma_focus_moves(v: AppPanelsView, max_panels_count: int, quit_on_last_cancel: bool)
    requires
        panels_wf(v),
    ensures
        v.active_panel_idx > 0 ==> panels_action_result(v, PanelsAction::PanelLeftNoOpen, max_panels_count, quit_on_last_cancel)
            == (AppPanelsView { active_panel_idx: (v.active_panel_idx - 1) as nat, ..v }, false, None::<Seq<char>>),
        v.active_panel_idx + 1 < v.panels.len() ==> panels_action_result(
            v,
            PanelsAction::PanelRightNoOpen,
            max_panels_count,
            quit_on_last_cancel,
        ) == (AppPanelsView { active_panel_idx: v.active_panel_idx + 1, ..v }, false, None::<Seq<char>>),
        panels_action_result(v, PanelsAction::FocusPanelLeft, max_panels_count, quit_on_last_cancel)
            == (AppPanelsView {
                active_panel_idx: if v.active_panel_idx == 0 {
                    (v.panels.len() - 1) as nat
                } else {
                    (v.active_panel_idx - 1) as nat
                },
                ..v
            }, false, None::<Seq<char>>),
        panels_action_result(v, PanelsAction::FocusPanelRight, max_panels_count, quit_on_last_cancel)
            == (AppPanelsView {
                active_panel_idx: if v.active_panel_idx + 1 == v.panels.len() { 0 } else { v.active_panel_idx + 1 },
                ..v
            }, false, None::<Seq<char>>),
{
    lemma_focus(v.active_panel_idx as int, v.panels.len() as int);
}

/// Do on the panels what the action asks, then activate the panel to
/// focus, if any.
pub fn apply_panels_action(
    panels: &mut AppPanelsAndInputs,
    action: PanelsAction,
    max_panels_count: usize,
    quit_on_last_cancel: bool,
) -> (out: PanelsOutcome)
    requires
        panels_wf(old(panels)@),
        old(panels)@.created_panels_count < usize::MAX,
    ensures
        panels_wf(final(panels)@),
        (final(panels)@, out.quitting, opt_view(out.error))
            == panels_action_result(old(panels)@, action, max_panels_count as int, quit_on_last_cancel),
{
    let ghost v = panels@;
    let mut quitting = false;
    let mut error: Option<String> = None;
    let mut new_active_panel_idx: Option<usize> = None;
    let len = panels.len();
    let active = panels.active_panel_idx();
    proof {
        lemma_focus(active as int, len as int);
    }
    match action {
        PanelsAction::ClosePanel { panel_ref } => {
            let close_idx = match panels.idx_by_ref(panel_ref) {
                Some(i) => i,
                None => if len == 2 && panels.has_preview_panel() {
                    1
                } else {
                    active
                },
            };
            if !panels.close(close_idx) {
                quitting = true;
            }
        }
        PanelsAction::FocusPanelLeft => {
            new_active_panel_idx = Some(if active == 0 { len - 1 } else { active - 1 });
        }
        PanelsAction::FocusPanelRight => {
            new_active_panel_idx = Some(if active + 1 == len { 0 } else { active + 1 });
        }
        PanelsAction::PanelLeftNoOpen => {
            if active == 0 {
                panels.close(len - 1);
            } else {
                new_active_panel_idx = Some(active - 1);
            }
        }
        PanelsAction::PanelRightNoOpen => {
            if active + 1 == len {
                panels.close(0);
            } else {
                new_active_panel_idx = Some(active + 1);
            }
        }
        PanelsAction::FocusStagingArea => {
            panels.focus_by_type(PanelStateType::Stage);
        }
        PanelsAction::ToggleSecondTree { activate, tree_built } => {
            let trees_count = panels.count_of_type(PanelStateType::Tree);
            if trees_count < 2 {
                if len >= max_panels_count {
                    panels.close_first_non_tree();
                }
                if tree_built {
                    let res = panels.new_panel(
                        PanelStateType::Tree,
                        String::new(),
                        PanelPurpose::NoPurpose,
                        HDir::Right,
                        activate,
                    );
                    if let Err(s) = res {
                        error = Some(s);
                    }
                }
            } else {
                panels.close_rightest_inactive_tree();
            }
        }
        PanelsAction::NewPanel { state_type, starting_input, purpose, direction, activate } => {
            if let Err(s) = panels.new_panel(state_type, starting_input, purpose, direction, activate) {
                error = Some(s);
            }
        }
        PanelsAction::NewState { state_type, starting_input } => {
            panels.push_state(state_type, starting_input);
        }
        PanelsAction::PopState => {
            if !panels.remove_state() && quit_on_last_cancel {
                quitting = true;
            }
        }
    }
    if let Some(idx) = new_active_panel_idx {
        panels.activate(idx);
    }
    PanelsOutcome { quitting, error }
}

/// What reaches the application while it runs.
#[derive(Debug, Clone, Copy, PartialEq, Eq, Structural)]
pub enum AppEvent {
    /// a mouse click at a column and a row of the screen
    Click { x: u16, y: u16 },
    /// the terminal was resized
    Resize { width: u16, height: u16 },
    /// any other input event (a key, a scroll, a double click, ...)
    Input,
    /// a command sequence came (from the launch arguments or a client)
    Sequence,
    /// the input thread was closed
    InputClosed,
}

/// What the application does with an event once the panels are updated.
#[derive(Debug, Clone, Copy, PartialEq, Eq, Structural)]
pub enum RunAction {
    /// the event was handled by the application (a panel activation)
    Handled,
    /// the terminal size changed: the screen and the panels are resized
    Resize { width: u16, height: u16 },
    /// the event goes to the active panel, whose command is then applied
    ToPanel,
    /// the sequence is parsed and its commands applied
    ApplySequence,
    /// the application quits
    Quit,
}

/// The index of the panel at the clicked column: the panel whose area
/// contains it or, when none does, an estimate assuming panels of equal
/// widths.
pub open spec fn clicked_index(v: AppPanelsView, x: u16) -> int {
    match panel_at(v, x) {
        Some(i) => i,
        None => (v.panels.len() * (x as int)) / (v.screen_width as int + 1),
    }
}

/// The panels and what the application does, once an event came: a click
/// on another panel than the active one activates it; a click on the
/// active panel and other input events go to the active panel; a resize
/// changes the screen width; the closing of the input quits.
pub open spec fn run_step_result(v: AppPanelsView, event: AppEvent) -> (AppPanelsView, RunAction) {
    match event {
        AppEvent::Click { x, y } => {
            let idx = clicked_index(v, x);
            if idx != v.active_panel_idx {
                (activated(v, idx), RunAction::Handled)
            } else {
                (v, RunAction::ToPanel)
            }
        },
        AppEvent::Resize { width, height } => (
            AppPanelsView { screen_width: width, ..v },
            RunAction::Resize { width, height },
        ),
        AppEvent::Input => (v, RunAction::ToPanel),
        AppEvent::Sequence => (v, RunAction::ApplySequence),
        AppEvent::InputClosed => (v, RunAction::Quit),
    }
}

/// One turn of the application's event loop: the decision on the event,
/// before the panel handles it or the sequence is applied.
pub fn run_step(panels: &mut AppPanelsAndInputs, event: AppEvent) -> (a: RunAction)
    requires
        panels_wf(old(panels)@),
        forall|i: int| 0 <= i < old(panels)@.panels.len() ==>
            (#[trigger] old(panels)@.panels[i]).left + old(panels)@.panels[i].width <= u16::MAX,
        event matches AppEvent::Click { x, y } ==> old(panels)@.panels.len() * (x as int) <= usize::MAX,
    ensures
        panels_wf(final(panels)@),
        (final(panels)@, a) == run_step_result(old(panels)@, event),
{
    match event {
        AppEvent::Click { x, y } => {
            let idx = panels.clicked_panel_index(x, y);
            if idx != panels.active_panel_idx() {
                panels.activate(idx);
                RunAction::Handled
            } else {
                RunAction::ToPanel
            }
        },
        AppEvent::Resize { width, height } => {
            panels.set_screen_width(width);
            RunAction::Resize { width, height }
        },
        AppEvent::Input => RunAction::ToPanel,
        AppEvent::Sequence => RunAction::ApplySequence,
        AppEvent::InputClosed => RunAction::Quit,
    }
}

} // verus!
