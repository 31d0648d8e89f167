//! The internal verbs which the command handling refers to.

use vstd::prelude::*;

verus! {

/// Verbs which are handled by broot itself rather than by an external
/// program.
#[allow(non_camel_case_types)]
#[derive(Debug, Clone, Copy, PartialEq, Eq, Structural)]
pub enum Internal {
    back,
    clear_stage,
    close_panel_cancel,
    close_panel_ok,
    close_preview,
    close_staging_area,
    copy_line,
    copy_path,
    escape,
    filesystems,
    focus,
    focus_panel_left,
    focus_panel_right,
    focus_staging_area_no_open,
    help,
    input_clear,
    input_del_char_below,
    input_del_char_left,
    input_del_word_left,
    input_del_word_right,
    input_go_left,
    input_go_right,
    input_go_to_end,
    input_go_to_start,
    input_go_word_left,
    input_go_word_right,
    input_paste,
    input_selection_copy,
    input_selection_cut,
    line_down,
    line_down_no_cycle,
    line_up,
    line_up_no_cycle,
    mode_command,
    mode_input,
    next_dir,
    next_match,
    next_same_depth,
    no_sort,
    open_leave,
    open_preview,
    open_staging_area,
    open_stay,
    open_stay_filter,
    page_down,
    page_up,
    panel_left,
    panel_left_no_open,
    panel_right,
    panel_right_no_open,
    parent,
    preview_binary,
    preview_image,
    preview_text,
    previous_dir,
    previous_match,
    previous_same_depth,
    print_path,
    print_relative_path,
    print_tree,
    quit,
    refresh,
    root_down,
    root_up,
    search_again,
    select,
    select_first,
    select_last,
    set_syntax_theme,
    sort_by_count,
    sort_by_date,
    sort_by_size,
    sort_by_type,
    sort_by_type_dirs_first,
    sort_by_type_dirs_last,
    stage,
    stage_all_files,
    start_end_panel,
    toggle_counts,
    toggle_dates,
    toggle_device_id,
    toggle_files,
    toggle_git_file_info,
    toggle_git_ignore,
    toggle_git_status,
    toggle_hidden,
    toggle_perm,
    toggle_preview,
    toggle_root_fs,
    toggle_second_tree,
    toggle_sizes,
    toggle_stage,
    toggle_staging_area,
    toggle_tree,
    toggle_trim_root,
    toggle_watch,
    total_search,
    trash,
    unstage,
    up_tree,
}

/// An internal with the way it was called: with a bang or not, with an
/// optional argument.
#[derive(Debug, Clone)]
pub struct InternalExecution {
    pub internal: Internal,
    pub bang: bool,
    pub arg: Option<String>,
}

impl InternalExecution {
    /// the execution of an internal, without bang nor argument
    pub fn from_internal(internal: Internal) -> (ie: InternalExecution)
        ensures
            ie.internal == internal,
            !ie.bang,
            ie.arg is None,
    {
        InternalExecution { internal, bang: false, arg: None }
    }
}

} // verus!
