use broot::app::app::{apply_panels_action, run_step, AppEvent, PanelsAction, RunAction};
use broot::app::app_panels::AppPanelsAndInputs;
use broot::app::cmd_result::HDir;
use broot::app::panel_id::PanelId;
use broot::app::panel_purpose::PanelPurpose;
use broot::app::panel_reference::PanelReference;
use broot::app::state_type::PanelStateType;

fn panels_with(types: &[PanelStateType]) -> AppPanelsAndInputs {
    let mut panels = AppPanelsAndInputs::new(120, String::new());
    for t in types {
        let purpose = if *t == PanelStateType::Preview { PanelPurpose::Preview } else { PanelPurpose::NoPurpose };
        panels.new_panel(*t, String::new(), purpose, HDir::Right, false).unwrap();
    }
    panels
}

#[test]
fn new_panels_hold_one_tree() {
    let panels = AppPanelsAndInputs::new(80, String::new());
    assert_eq!(panels.len(), 1);
    assert_eq!(panels.active_panel_idx(), 0);
    assert_eq!(panels.state_type(), PanelStateType::Tree);
    assert_eq!(panels.panel().id, PanelId(0));
    assert_eq!(panels.panel().width, 80);
    assert_eq!(panels.screen_width(), 80);
}

#[test]
fn first_added_panel_gets_the_id_of_the_first_one() {
    let panels = panels_with(&[PanelStateType::Tree]);
    assert_eq!(panels.panel_by_idx_unchecked(0).id, PanelId(0));
    assert_eq!(panels.panel_by_idx_unchecked(1).id, PanelId(0));
    let panels = panels_with(&[PanelStateType::Tree, PanelStateType::Help]);
    assert_eq!(panels.panel_by_idx_unchecked(1).id, PanelId(1));
}

#[test]
fn only_one_preview_and_one_stage() {
    let mut panels = panels_with(&[PanelStateType::Preview, PanelStateType::Stage]);
    assert!(panels.has_preview_panel());
    assert!(panels.has_stage_panel());
    let e = panels.new_panel(PanelStateType::Preview, String::new(), PanelPurpose::Preview, HDir::Right, true);
    assert_eq!(e, Err("There can be only one preview panel".to_string()));
    let e = panels.new_panel(PanelStateType::Stage, String::new(), PanelPurpose::NoPurpose, HDir::Left, true);
    assert_eq!(e, Err("There can be only one stage panel".to_string()));
    assert_eq!(panels.len(), 3);
}

#[test]
fn preview_goes_at_the_end_others_near_the_active_panel() {
    let mut panels = AppPanelsAndInputs::new(100, String::new());
    panels.new_panel(PanelStateType::Preview, String::new(), PanelPurpose::Preview, HDir::Left, false).unwrap();
    panels.new_panel(PanelStateType::Help, String::new(), PanelPurpose::NoPurpose, HDir::Right, true).unwrap();
    assert_eq!(panels.active_panel_idx(), 1);
    assert_eq!(panels.state_type(), PanelStateType::Help);
    assert_eq!(panels.preview_panel_idx(), Some(2));
    panels.new_panel(PanelStateType::Fs, String::new(), PanelPurpose::NoPurpose, HDir::Left, false).unwrap();
    // inserted at the active index without activation: the new panel is at that index
    assert_eq!(panels.active_panel_idx(), 1);
    assert_eq!(panels.state_type(), PanelStateType::Fs);
}

#[test]
fn closing_keeps_the_last_panel_and_not_a_lone_preview() {
    let mut panels = AppPanelsAndInputs::new(100, String::new());
    assert!(!panels.close(0));
    assert!(!panels.close(3));
    panels.new_panel(PanelStateType::Preview, String::new(), PanelPurpose::Preview, HDir::Right, false).unwrap();
    assert!(!panels.close(0)); // the preview would be alone
    assert!(panels.close(1));
    assert_eq!(panels.len(), 1);
    assert!(!panels.has_preview_panel());
}

#[test]
fn closing_keeps_the_active_panel_active() {
    let mut panels = panels_with(&[PanelStateType::Tree, PanelStateType::Help]);
    // ids: 0, 1, 0 ; make the help panel (id 1, index 1) active... index 1 is id 1
    panels.activate(1);
    let id = panels.panel().id;
    assert!(panels.close(0));
    assert_eq!(panels.panel().id, id);
    assert_eq!(panels.active_panel_idx(), 0);
    // closing the active panel activates the last one
    let mut panels = panels_with(&[PanelStateType::Help, PanelStateType::Fs]);
    panels.activate(1);
    assert!(panels.close(1));
    assert_eq!(panels.active_panel_idx(), 1);
}

#[test]
fn references_designate_panels() {
    let mut panels = panels_with(&[PanelStateType::Help, PanelStateType::Preview]);
    panels.activate(1);
    assert_eq!(panels.idx_by_ref(PanelReference::Active), Some(1));
    assert_eq!(panels.idx_by_ref(PanelReference::Leftest), Some(0));
    assert_eq!(panels.idx_by_ref(PanelReference::Rightest), Some(2));
    assert_eq!(panels.idx_by_ref(PanelReference::Idx(2)), Some(2));
    assert_eq!(panels.idx_by_ref(PanelReference::Idx(3)), None);
    assert_eq!(panels.idx_by_ref(PanelReference::Id(PanelId(0))), Some(0));
    assert_eq!(panels.idx_by_ref(PanelReference::Id(PanelId(7))), None);
    assert_eq!(panels.idx_by_ref(PanelReference::Preview), Some(2));
    assert_eq!(panels.preview_panel_id(), Some(PanelId(1)));
    assert_eq!(panels.stage_panel_id(), None);
}

#[test]
fn counting_and_focusing_by_type() {
    let mut panels = panels_with(&[PanelStateType::Tree, PanelStateType::Stage]);
    assert_eq!(panels.count_of_type(PanelStateType::Tree), 2);
    assert_eq!(panels.count_of_type(PanelStateType::Help), 0);
    assert!(panels.focus_by_type(PanelStateType::Stage));
    assert_eq!(panels.state_type(), PanelStateType::Stage);
    assert!(!panels.focus_by_type(PanelStateType::Trash));
    assert_eq!(panels.idx_by_type(PanelStateType::Stage), Some(1));
}

#[test]
fn states_are_stacked_and_removed() {
    let mut panels = panels_with(&[PanelStateType::Help]);
    panels.mut_panel().set_input("abc".to_string());
    assert_eq!(panels.panel().input(), "abc");
    panels.push_state(PanelStateType::Fs, "fs".to_string());
    assert_eq!(panels.state_type(), PanelStateType::Fs);
    assert_eq!(panels.panel().states_count(), 2);
    assert_eq!(panels.panel().input(), "fs");
    panels.mut_panel().set_input("typed".to_string());
    assert!(panels.remove_state());
    assert_eq!(panels.state_type(), PanelStateType::Tree);
    // the input is back to the starting input of the current state
    assert_eq!(panels.panel().input(), "");
    // a single state: the panel is closed
    assert!(panels.remove_state());
    assert_eq!(panels.len(), 1);
    // the last panel, with a single state: nothing removed
    assert!(!panels.remove_state());
}

#[test]
fn closing_non_trees_and_inactive_trees() {
    let mut panels = panels_with(&[PanelStateType::Tree, PanelStateType::Help]);
    assert!(panels.close_first_non_tree());
    assert_eq!(panels.count_of_type(PanelStateType::Help), 0);
    assert!(!panels.close_first_non_tree());
    assert!(panels.close_rightest_inactive_tree());
    assert_eq!(panels.len(), 1);
    assert!(!panels.close_rightest_inactive_tree());
}

#[test]
fn clicks_find_panels() {
    let mut panels = panels_with(&[PanelStateType::Help]);
    panels.mut_panel().left = 0;
    panels.mut_panel().width = 60;
    panels.activate(1);
    panels.mut_panel().left = 60;
    panels.mut_panel().width = 60;
    assert_eq!(panels.clicked_panel_index(10, 3), 0);
    assert_eq!(panels.clicked_panel_index(60, 3), 1);
    // outside of any panel: estimated with equal widths
    assert_eq!(panels.clicked_panel_index(121, 3), (2 * 121) / 121);
}

#[test]
fn focus_left_and_right_cycle() {
    let mut panels = panels_with(&[PanelStateType::Help, PanelStateType::Fs]);
    let out = apply_panels_action(&mut panels, PanelsAction::FocusPanelLeft, 4, false);
    assert!(!out.quitting);
    assert_eq!(panels.active_panel_idx(), 2);
    apply_panels_action(&mut panels, PanelsAction::FocusPanelRight, 4, false);
    assert_eq!(panels.active_panel_idx(), 0);
    apply_panels_action(&mut panels, PanelsAction::FocusPanelRight, 4, false);
    apply_panels_action(&mut panels, PanelsAction::FocusPanelLeft, 4, false);
    assert_eq!(panels.active_panel_idx(), 0);
}

#[test]
fn panel_left_at_the_leftest_closes_the_rightest() {
    let mut panels = panels_with(&[PanelStateType::Help]);
    apply_panels_action(&mut panels, PanelsAction::PanelLeftNoOpen, 4, false);
    assert_eq!(panels.len(), 1);
    let mut panels = panels_with(&[PanelStateType::Help]);
    panels.activate(1);
    apply_panels_action(&mut panels, PanelsAction::PanelRightNoOpen, 4, false);
    assert_eq!(panels.len(), 1);
    assert_eq!(panels.state_type(), PanelStateType::Help);
}

#[test]
fn closing_the_last_panel_quits() {
    let mut panels = AppPanelsAndInputs::new(80, String::new());
    let out = apply_panels_action(&mut panels, PanelsAction::ClosePanel { panel_ref: PanelReference::Active }, 4, false);
    assert!(out.quitting);
    let out = apply_panels_action(&mut panels, PanelsAction::PopState, 4, true);
    assert!(out.quitting);
    let out = apply_panels_action(&mut panels, PanelsAction::PopState, 4, false);
    assert!(!out.quitting);
}

#[test]
fn close_without_target_closes_the_preview() {
    let mut panels = panels_with(&[PanelStateType::Preview]);
    apply_panels_action(&mut panels, PanelsAction::ClosePanel { panel_ref: PanelReference::Id(PanelId(9)) }, 4, false);
    assert_eq!(panels.len(), 1);
    assert!(!panels.has_preview_panel());
}

#[test]
fn toggle_second_tree() {
    let mut panels = panels_with(&[PanelStateType::Help]);
    let out = apply_panels_action(&mut panels, PanelsAction::ToggleSecondTree { activate: true, tree_built: true }, 2, false);
    assert!(out.error.is_none());
    // there were as many panels as allowed: the help was closed
    assert_eq!(panels.count_of_type(PanelStateType::Help), 0);
    assert_eq!(panels.count_of_type(PanelStateType::Tree), 2);
    apply_panels_action(&mut panels, PanelsAction::ToggleSecondTree { activate: true, tree_built: true }, 2, false);
    assert_eq!(panels.count_of_type(PanelStateType::Tree), 1);
    // no tree could be built: the panel which isn't a tree is still closed,
    // but no tree is opened
    let mut panels = panels_with(&[PanelStateType::Help]);
    apply_panels_action(&mut panels, PanelsAction::ToggleSecondTree { activate: true, tree_built: false }, 2, false);
    assert_eq!(panels.len(), 1);
    assert_eq!(panels.count_of_type(PanelStateType::Tree), 1);
}

#[test]
fn new_panel_action_reports_errors() {
    let mut panels = panels_with(&[PanelStateType::Preview]);
    let out = apply_panels_action(
        &mut panels,
        PanelsAction::NewPanel {
            state_type: PanelStateType::Preview,
            starting_input: String::new(),
            purpose: PanelPurpose::Preview,
            direction: HDir::Right,
            activate: true,
        },
        4,
        false,
    );
    assert_eq!(out.error, Some("There can be only one preview panel".to_string()));
    apply_panels_action(&mut panels, PanelsAction::NewState { state_type: PanelStateType::Help, starting_input: "h".to_string() }, 4, false);
    assert_eq!(panels.state_type(), PanelStateType::Help);
    assert_eq!(panels.panel().input(), "h");
    apply_panels_action(&mut panels, PanelsAction::FocusStagingArea, 4, false);
    assert_eq!(panels.active_panel_idx(), 0);
}

#[test]
fn inputs_follow_their_panels() {
    let mut panels = AppPanelsAndInputs::new(120, "root".to_string());
    panels.new_panel(PanelStateType::Help, "help".to_string(), PanelPurpose::NoPurpose, HDir::Right, false).unwrap();
    panels.new_panel(PanelStateType::Fs, "fs".to_string(), PanelPurpose::NoPurpose, HDir::Right, false).unwrap();
    assert_eq!(panels.panel_by_idx_unchecked(0).input(), "root");
    assert_eq!(panels.panel_by_idx_unchecked(1).input(), "fs");
    assert_eq!(panels.panel_by_idx_unchecked(2).input(), "help");
    assert!(panels.close(1));
    assert_eq!(panels.len(), 2);
    assert_eq!(panels.panel_by_idx_unchecked(0).input(), "root");
    assert_eq!(panels.panel_by_idx_unchecked(1).input(), "help");
    assert_eq!(panels.active_panel_idx(), 0);
}

#[test]
fn run_steps() {
    let mut panels = AppPanelsAndInputs::new(100, String::new());
    assert_eq!(run_step(&mut panels, AppEvent::Input), RunAction::ToPanel);
    assert_eq!(run_step(&mut panels, AppEvent::Click { x: 10, y: 3 }), RunAction::ToPanel);
    panels.new_panel(PanelStateType::Help, String::new(), PanelPurpose::NoPurpose, HDir::Right, false).unwrap();
    // column 90 is in the first panel's area, the active one
    assert_eq!(run_step(&mut panels, AppEvent::Click { x: 90, y: 3 }), RunAction::ToPanel);
    // no area holds column 100: the estimate by equal widths gives the second panel
    assert_eq!(run_step(&mut panels, AppEvent::Click { x: 100, y: 3 }), RunAction::Handled);
    assert_eq!(panels.active_panel_idx(), 1);
    assert_eq!(run_step(&mut panels, AppEvent::Resize { width: 60, height: 20 }), RunAction::Resize { width: 60, height: 20 });
    assert_eq!(panels.screen_width(), 60);
    assert_eq!(run_step(&mut panels, AppEvent::Sequence), RunAction::ApplySequence);
    assert_eq!(run_step(&mut panels, AppEvent::InputClosed), RunAction::Quit);
}
