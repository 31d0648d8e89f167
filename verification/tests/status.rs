use broot::app::selection::{Selection, SelectionType};
use broot::app::standard_status::{StandardStatus, StatusKeys};
use broot::app::state_type::PanelStateType;
use broot::app::status::Status;

fn keys() -> StatusKeys {
    StatusKeys {
        open_leave_dir: Some("alt-enter".to_string()),
        open_stay_file: Some("enter".to_string()),
        open_leave_file: Some("alt-enter".to_string()),
        panel_right: Some("ctrl-right".to_string()),
        panel_left_no_open: None,
        toggle_hidden: Some("alt-h".to_string()),
        toggle_git_ignore: None,
    }
}

fn dir() -> Selection<'static> {
    Selection { path: "/home/dys", line: 0, stype: SelectionType::Directory, is_exe: false }
}

#[test]
fn statuses_are_built() {
    let s = Status::new("a".to_string(), true);
    assert!(s.error);
    assert_eq!(s.message, "a");
    assert!(!Status::from_message("b".to_string()).error);
    assert!(Status::from_error("c".to_string()).error);
}

#[test]
fn standard_status_of_a_directory() {
    let ss = StandardStatus::new(&keys());
    let status = ss.builder(PanelStateType::Tree, dir(), 80).status();
    assert!(!status.error);
    assert_eq!(
        status.message,
        "Hit *esc* to go back, *enter* to focus, *alt-enter* to cd, or a space then a verb",
    );
    assert_eq!(ss.all_files_hidden, Some("Some files are hidden, use *alt-h* to display them".to_string()));
    assert_eq!(ss.all_files_git_ignored, None);
}

#[test]
fn standard_status_is_cut_to_the_width() {
    let ss = StandardStatus::new(&keys());
    let status = ss.builder(PanelStateType::Tree, dir(), 40).status();
    assert_eq!(status.message, "Hit *esc* to go back, *enter* to focus");
}

#[test]
fn standard_status_of_a_file_on_a_wide_screen() {
    let ss = StandardStatus::new(&keys());
    let file = Selection { path: "/a.txt", line: 0, stype: SelectionType::File, is_exe: false };
    let mut b = ss.builder(PanelStateType::Tree, file, 200);
    b.has_previous_state = false;
    let status = b.status();
    assert_eq!(
        status.message,
        "Hit *enter* to open the file, *alt-enter* to open and quit, *?* for help, or a space then a verb",
    );
}

#[test]
fn standard_status_of_the_root() {
    let ss = StandardStatus::new(&keys());
    let root = Selection { path: "/", line: 0, stype: SelectionType::Directory, is_exe: false };
    let mut b = ss.builder(PanelStateType::Tree, root, 100);
    b.on_tree_root = true;
    b.has_previous_state = false;
    assert_eq!(b.status().message, "Hit *?* for help, or a few letters to search");
}

#[test]
fn standard_status_of_a_preview() {
    let ss = StandardStatus::new(&keys());
    let mut b = ss.builder(PanelStateType::Preview, dir(), 100);
    b.is_filtered = true;
    assert_eq!(b.status().message, "Hit *ctrl-right* to reveal the text, or a space then a verb");
    let mut b = ss.builder(PanelStateType::Preview, dir(), 100);
    b.has_removed_pattern = true;
    b.has_previous_state = false;
    // no key for restoring the filter
    assert_eq!(b.status().message, "Hit a space then a verb");
    let b = ss.builder(PanelStateType::Stage, dir(), 100);
    assert_eq!(b.status().message, "Hit *esc* to go back");
}

#[test]
fn standard_status_of_a_root_which_can_be_left() {
    let ss = StandardStatus::new(&keys());
    let mut b = ss.builder(PanelStateType::Tree, dir(), 100);
    b.on_tree_root = true;
    b.has_previous_state = false;
    assert_eq!(b.status().message, "Hit *enter* to go up, *?* for help, or a few letters to search");
}
