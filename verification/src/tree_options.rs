//! The options of the display of a tree, and how verbs change them.

use vstd::prelude::*;
use crate::command::internal::Internal;

verus! {

/// The order of the lines of a tree.
#[derive(Debug, Clone, Copy, PartialEq, Eq, Structural)]
pub enum Sort {
    NoSort,
    Count,
    Date,
    Size,
    TypeDirsFirst,
    TypeDirsLast,
}

/// What's shown of a tree, and in what order.
#[derive(Debug, Clone, Copy)]
pub struct TreeOptions {
    pub show_hidden: bool,
    pub only_folders: bool,
    pub show_counts: bool,
    pub show_dates: bool,
    pub show_sizes: bool,
    pub show_git_file_info: bool,
    pub show_device_id: bool,
    pub show_root_fs: bool,
    pub trim_root: bool,
    pub show_permissions: bool,
    pub respect_git_ignore: bool,
    pub filter_by_git_status: bool,
    pub show_tree: bool,
    pub sort: Sort,
}

/// An option of the display which a verb may toggle.
#[derive(Debug, Clone, Copy, PartialEq, Eq, Structural)]
pub enum DisplayFlag {
    Counts,
    ShowTree,
    Dates,
    DeviceId,
    OnlyFolders,
    Hidden,
    RootFs,
    GitIgnore,
    GitFileInfo,
    Permissions,
    TrimRoot,
}

/// A change of the tree options a verb may ask for.
#[derive(Debug, Clone, Copy, PartialEq, Eq, Structural)]
pub enum OptionsChange {
    SortByCount,
    SortByDate,
    SortBySize,
    SortByType,
    SortByTypeDirsFirst,
    SortByTypeDirsLast,
    NoSort,
    ToggleGitStatus,
    ToggleSizes,
    Toggle(DisplayFlag),
}

/// The change of the tree options the internal asks for, if it's one.
pub open spec fn options_change_of(internal: Internal) -> Option<OptionsChange> {
    match internal {
        Internal::sort_by_count => Some(OptionsChange::SortByCount),
        Internal::sort_by_date => Some(OptionsChange::SortByDate),
        Internal::sort_by_size => Some(OptionsChange::SortBySize),
        Internal::sort_by_type => Some(OptionsChange::SortByType),
        Internal::sort_by_type_dirs_first => Some(OptionsChange::SortByTypeDirsFirst),
        Internal::sort_by_type_dirs_last => Some(OptionsChange::SortByTypeDirsLast),
        Internal::no_sort => Some(OptionsChange::NoSort),
        Internal::toggle_git_status => Some(OptionsChange::ToggleGitStatus),
        Internal::toggle_sizes => Some(OptionsChange::ToggleSizes),
        Internal::toggle_counts => Some(OptionsChange::Toggle(DisplayFlag::Counts)),
        Internal::toggle_tree => Some(OptionsChange::Toggle(DisplayFlag::ShowTree)),
        Internal::toggle_dates => Some(OptionsChange::Toggle(DisplayFlag::Dates)),
        Internal::toggle_device_id => Some(OptionsChange::Toggle(DisplayFlag::DeviceId)),
        Internal::toggle_files => Some(OptionsChange::Toggle(DisplayFlag::OnlyFolders)),
        Internal::toggle_hidden => Some(OptionsChange::Toggle(DisplayFlag::Hidden)),
        Internal::toggle_root_fs => Some(OptionsChange::Toggle(DisplayFlag::RootFs)),
        Internal::toggle_git_ignore => Some(OptionsChange::Toggle(DisplayFlag::GitIgnore)),
        Internal::toggle_git_file_info => Some(OptionsChange::Toggle(DisplayFlag::GitFileInfo)),
        Internal::toggle_perm => Some(OptionsChange::Toggle(DisplayFlag::Permissions)),
        Internal::toggle_trim_root => Some(OptionsChange::Toggle(DisplayFlag::TrimRoot)),
        _ => None,
    }
}

/// The change of the tree options the internal asks for, if it's one.
pub fn options_change_for(internal: Internal) -> (res: Option<OptionsChange>)
    ensures
        res == options_change_of(internal),
{
    match internal {
        Internal::sort_by_count => Some(OptionsChange::SortByCount),
        Internal::sort_by_date => Some(OptionsChange::SortByDate),
        Internal::sort_by_size => Some(OptionsChange::SortBySize),
        Internal::sort_by_type => Some(OptionsChange::SortByType),
        Internal::sort_by_type_dirs_first => Some(OptionsChange::SortByTypeDirsFirst),
        Internal::sort_by_type_dirs_last => Some(OptionsChange::SortByTypeDirsLast),
        Internal::no_sort => Some(OptionsChange::NoSort),
        Internal::toggle_git_status => Some(OptionsChange::ToggleGitStatus),
        Internal::toggle_sizes => Some(OptionsChange::ToggleSizes),
        Internal::toggle_counts => Some(OptionsChange::Toggle(DisplayFlag::Counts)),
        Internal::toggle_tree => Some(OptionsChange::Toggle(DisplayFlag::ShowTree)),
        Internal::toggle_dates => Some(OptionsChange::Toggle(DisplayFlag::Dates)),
        Internal::toggle_device_id => Some(OptionsChange::Toggle(DisplayFlag::DeviceId)),
        Internal::toggle_files => Some(OptionsChange::Toggle(DisplayFlag::OnlyFolders)),
        Internal::toggle_hidden => Some(OptionsChange::Toggle(DisplayFlag::Hidden)),
        Internal::toggle_root_fs => Some(OptionsChange::Toggle(DisplayFlag::RootFs)),
        Internal::toggle_git_ignore => Some(OptionsChange::Toggle(DisplayFlag::GitIgnore)),
        Internal::toggle_git_file_info => Some(OptionsChange::Toggle(DisplayFlag::GitFileInfo)),
        Internal::toggle_perm => Some(OptionsChange::Toggle(DisplayFlag::Permissions)),
        Internal::toggle_trim_root => Some(OptionsChange::Toggle(DisplayFlag::TrimRoot)),
        _ => None,
    }
}

/// Whether the display option is on.
pub open spec fn flag(o: TreeOptions, f: DisplayFlag) -> bool {
    match f {
        DisplayFlag::Counts => o.show_counts,
        DisplayFlag::ShowTree => o.show_tree,
        DisplayFlag::Dates => o.show_dates,
        DisplayFlag::DeviceId => o.show_device_id,
        DisplayFlag::OnlyFolders => o.only_folders,
        DisplayFlag::Hidden => o.show_hidden,
        DisplayFlag::RootFs => o.show_root_fs,
        DisplayFlag::GitIgnore => o.respect_git_ignore,
        DisplayFlag::GitFileInfo => o.show_git_file_info,
        DisplayFlag::Permissions => o.show_permissions,
        DisplayFlag::TrimRoot => o.trim_root,
    }
}

/// The options with the display option set to `v`.
pub open spec fn with_flag(o: TreeOptions, f: DisplayFlag, v: bool) -> TreeOptions {
    TreeOptions {
        show_hidden: if f == DisplayFlag::Hidden { v } else { o.show_hidden },
        only_folders: if f == DisplayFlag::OnlyFolders { v } else { o.only_folders },
        show_counts: if f == DisplayFlag::Counts { v } else { o.show_counts },
        show_dates: if f == DisplayFlag::Dates { v } else { o.show_dates },
        show_sizes: o.show_sizes,
        show_git_file_info: if f == DisplayFlag::GitFileInfo { v } else { o.show_git_file_info },
        show_device_id: if f == DisplayFlag::DeviceId { v } else { o.show_device_id },
        show_root_fs: if f == DisplayFlag::RootFs { v } else { o.show_root_fs },
        trim_root: if f == DisplayFlag::TrimRoot { v } else { o.trim_root },
        show_permissions: if f == DisplayFlag::Permissions { v } else { o.show_permissions },
        respect_git_ignore: if f == DisplayFlag::GitIgnore { v } else { o.respect_git_ignore },
        filter_by_git_status: o.filter_by_git_status,
        show_tree: if f == DisplayFlag::ShowTree { v } else { o.show_tree },
        sort: o.sort,
    }
}

/// The message telling the display option is now on, or off.
pub open spec fn flag_message(f: DisplayFlag, on: bool) -> Seq<char> {
    match f {
        DisplayFlag::Counts => if on { "*displaying file counts*"@ } else { "*hiding file counts*"@ },
        DisplayFlag::ShowTree => if on { "*displaying tree structure (if possible)*"@ } else { "*displaying only current directory*"@ },
        DisplayFlag::Dates => if on { "*displaying last modified dates*"@ } else { "*hiding last modified dates*"@ },
        DisplayFlag::DeviceId => if on { "*displaying device id*"@ } else { "*hiding device id*"@ },
        DisplayFlag::OnlyFolders => if on { "*displaying only directories*"@ } else { "*displaying both files and directories*"@ },
        DisplayFlag::Hidden => if on { "h:**y** - *Hidden files displayed*"@ } else { "h:**n** - *Hidden files not displayed*"@ },
        DisplayFlag::RootFs => if on { "*displaying filesystem info for the tree's root directory*"@ } else { "*removing filesystem info*"@ },
        DisplayFlag::GitIgnore => if on { "gi:**y** - *applying gitignore rules*"@ } else { "gi:**n** - *not applying gitignore rules*"@ },
        DisplayFlag::GitFileInfo => if on { "*displaying git info next to files*"@ } else { "*removing git file info*"@ },
        DisplayFlag::Permissions => if on { "*displaying file permissions*"@ } else { "*removing file permissions*"@ },
        DisplayFlag::TrimRoot => if on { "*now trimming root from excess files*"@ } else { "*not trimming root files anymore*"@ },
    }
}

fn get_flag(o: &TreeOptions, f: DisplayFlag) -> (v: bool)
    ensures
        v == flag(*o, f),
{
    match f {
        DisplayFlag::Counts => o.show_counts,
        DisplayFlag::ShowTree => o.show_tree,
        DisplayFlag::Dates => o.show_dates,
        DisplayFlag::DeviceId => o.show_device_id,
        DisplayFlag::OnlyFolders => o.only_folders,
        DisplayFlag::Hidden => o.show_hidden,
        DisplayFlag::RootFs => o.show_root_fs,
        DisplayFlag::GitIgnore => o.respect_git_ignore,
        DisplayFlag::GitFileInfo => o.show_git_file_info,
        DisplayFlag::Permissions => o.show_permissions,
        DisplayFlag::TrimRoot => o.trim_root,
    }
}

fn set_flag(o: TreeOptions, f: DisplayFlag, v: bool) -> (n: TreeOptions)
    ensures
        n == with_flag(o, f, v),
{
    TreeOptions {
        show_hidden: if f == DisplayFlag::Hidden { v } else { o.show_hidden },
        only_folders: if f == DisplayFlag::OnlyFolders { v } else { o.only_folders },
        show_counts: if f == DisplayFlag::Counts { v } else { o.show_counts },
        show_dates: if f == DisplayFlag::Dates { v } else { o.show_dates },
        show_sizes: o.show_sizes,
        show_git_file_info: if f == DisplayFlag::GitFileInfo { v } else { o.show_git_file_info },
        show_device_id: if f == DisplayFlag::DeviceId { v } else { o.show_device_id },
        show_root_fs: if f == DisplayFlag::RootFs { v } else { o.show_root_fs },
        trim_root: if f == DisplayFlag::TrimRoot { v } else { o.trim_root },
        show_permissions: if f == DisplayFlag::Permissions { v } else { o.show_permissions },
        respect_git_ignore: if f == DisplayFlag::GitIgnore { v } else { o.respect_git_ignore },
        filter_by_git_status: o.filter_by_git_status,
        show_tree: if f == DisplayFlag::ShowTree { v } else { o.show_tree },
        sort: o.sort,
    }
}

fn message_of_flag(f: DisplayFlag, on: bool) -> (m: &'static str)
    ensures
        m@ == flag_message(f, on),
{
    match f {
        DisplayFlag::Counts => if on { "*displaying file counts*" } else { "*hiding file counts*" },
        DisplayFlag::ShowTree => if on { "*displaying tree structure (if possible)*" } else { "*displaying only current directory*" },
        DisplayFlag::Dates => if on { "*displaying last modified dates*" } else { "*hiding last modified dates*" },
        DisplayFlag::DeviceId => if on { "*displaying device id*" } else { "*hiding device id*" },
        DisplayFlag::OnlyFolders => if on { "*displaying only directories*" } else { "*displaying both files and directories*" },
        DisplayFlag::Hidden => if on { "h:**y** - *Hidden files displayed*" } else { "h:**n** - *Hidden files not displayed*" },
        DisplayFlag::RootFs => if on { "*displaying filesystem info for the tree's root directory*" } else { "*removing filesystem info*" },
        DisplayFlag::GitIgnore => if on { "gi:**y** - *applying gitignore rules*" } else { "gi:**n** - *not applying gitignore rules*" },
        DisplayFlag::GitFileInfo => if on { "*displaying git info next to files*" } else { "*removing git file info*" },
        DisplayFlag::Permissions => if on { "*displaying file permissions*" } else { "*removing file permissions*" },
        DisplayFlag::TrimRoot => if on { "*now trimming root from excess files*" } else { "*not trimming root files anymore*" },
    }
}

/// Sorting in the given order, showing the given column, or not sorting
/// anymore when it was already sorted so (then the column is hidden).
pub open spec fn sorted_by(o: TreeOptions, sort: Sort, shown: TreeOptions, hidden: TreeOptions, message: Seq<char>) -> (TreeOptions, Seq<char>) {
    if o.sort == sort {
        (hidden, "*not sorting anymore*"@)
    } else {
        (shown, message)
    }
}

/// The options once the change was made, and the message telling what
/// changed.
pub open spec fn options_change(change: OptionsChange, o: TreeOptions) -> (TreeOptions, Seq<char>) {
    match change {
        OptionsChange::SortByCount => sorted_by(
            o,
            Sort::Count,
            TreeOptions { sort: Sort::Count, show_counts: true, ..o },
            TreeOptions { sort: Sort::NoSort, show_counts: false, ..o },
            "*now sorting by file count*"@,
        ),
        OptionsChange::SortByDate => sorted_by(
            o,
            Sort::Date,
            TreeOptions { sort: Sort::Date, show_dates: true, ..o },
            TreeOptions { sort: Sort::NoSort, show_dates: false, ..o },
            "*now sorting by last modified date*"@,
        ),
        OptionsChange::SortBySize => sorted_by(
            o,
            Sort::Size,
            TreeOptions { sort: Sort::Size, show_sizes: true, show_root_fs: true, ..o },
            TreeOptions { sort: Sort::NoSort, show_sizes: false, ..o },
            "*now sorting files and directories by total size*"@,
        ),
        OptionsChange::SortByType => match o.sort {
            Sort::TypeDirsFirst => (TreeOptions { sort: Sort::TypeDirsLast, ..o }, "*sorting by type, directories last*"@),
            Sort::TypeDirsLast => (TreeOptions { sort: Sort::NoSort, ..o }, "*not sorting anymore*"@),
            _ => (TreeOptions { sort: Sort::TypeDirsFirst, ..o }, "*sorting by type, directories first*"@),
        },
        OptionsChange::SortByTypeDirsFirst => sorted_by(
            o,
            Sort::TypeDirsFirst,
            TreeOptions { sort: Sort::TypeDirsFirst, ..o },
            TreeOptions { sort: Sort::NoSort, ..o },
            "*now sorting by type, directories first*"@,
        ),
        OptionsChange::SortByTypeDirsLast => sorted_by(
            o,
            Sort::TypeDirsLast,
            TreeOptions { sort: Sort::TypeDirsLast, ..o },
            TreeOptions { sort: Sort::NoSort, ..o },
            "*now sorting by type, directories last*"@,
        ),
        OptionsChange::NoSort => if o.sort == Sort::NoSort {
            (o, "*still not searching*"@)
        } else {
            (TreeOptions { sort: Sort::NoSort, ..o }, "*not sorting anymore*"@)
        },
        OptionsChange::ToggleGitStatus => if o.filter_by_git_status {
            (TreeOptions { filter_by_git_status: false, ..o }, "*not filtering according to git status anymore*"@)
        } else {
            (TreeOptions { filter_by_git_status: true, show_hidden: true, ..o }, "*only displaying new or modified files*"@)
        },
        OptionsChange::ToggleSizes => if o.show_sizes {
            (TreeOptions { show_sizes: false, show_root_fs: false, ..o }, "*removing sizes of files and directories*"@)
        } else {
            (TreeOptions { show_sizes: true, show_root_fs: true, ..o }, "*now displaying sizes of files and directories*"@)
        },
        OptionsChange::Toggle(f) => {
            let n = with_flag(o, f, !flag(o, f));
            (n, flag_message(f, !flag(o, f)))
        },
    }
}

/// The options once the order was changed, and the message telling what
/// changed.
fn sort_changed(change: OptionsChange, o: TreeOptions) -> (r: (TreeOptions, &'static str))
    requires
        !(change is Toggle),
    ensures
        (r.0, r.1@) == options_change(change, o),
{
    match change {
        OptionsChange::SortByCount => {
            if o.sort == Sort::Count {
                (TreeOptions { sort: Sort::NoSort, show_counts: false, ..o }, "*not sorting anymore*")
            } else {
                (TreeOptions { sort: Sort::Count, show_counts: true, ..o }, "*now sorting by file count*")
            }
        }
        OptionsChange::SortByDate => {
            if o.sort == Sort::Date {
                (TreeOptions { sort: Sort::NoSort, show_dates: false, ..o }, "*not sorting anymore*")
            } else {
                (TreeOptions { sort: Sort::Date, show_dates: true, ..o }, "*now sorting by last modified date*")
            }
        }
        OptionsChange::SortBySize => {
            if o.sort == Sort::Size {
                (TreeOptions { sort: Sort::NoSort, show_sizes: false, ..o }, "*not sorting anymore*")
            } else {
                (TreeOptions { sort: Sort::Size, show_sizes: true, show_root_fs: true, ..o }, "*now sorting files and directories by total size*")
            }
        }
        OptionsChange::SortByType => {
            match o.sort {
                Sort::TypeDirsFirst => {
                    (TreeOptions { sort: Sort::TypeDirsLast, ..o }, "*sorting by type, directories last*")
                }
                Sort::TypeDirsLast => {
                    (TreeOptions { sort: Sort::NoSort, ..o }, "*not sorting anymore*")
                }
                _ => {
                    (TreeOptions { sort: Sort::TypeDirsFirst, ..o }, "*sorting by type, directories first*")
                }
            }
        }
        OptionsChange::SortByTypeDirsFirst => {
            if o.sort == Sort::TypeDirsFirst {
                (TreeOptions { sort: Sort::NoSort, ..o }, "*not sorting anymore*")
            } else {
                (TreeOptions { sort: Sort::TypeDirsFirst, ..o }, "*now sorting by type, directories first*")
            }
        }
        OptionsChange::SortByTypeDirsLast => {
            if o.sort == Sort::TypeDirsLast {
                (TreeOptions { sort: Sort::NoSort, ..o }, "*not sorting anymore*")
            } else {
                (TreeOptions { sort: Sort::TypeDirsLast, ..o }, "*now sorting by type, directories last*")
            }
        }
        OptionsChange::NoSort => {
            if o.sort == Sort::NoSort {
                (o, "*still not searching*")
            } else {
                (TreeOptions { sort: Sort::NoSort, ..o }, "*not sorting anymore*")
            }
        }
        OptionsChange::ToggleGitStatus => {
            if o.filter_by_git_status {
                (TreeOptions { filter_by_git_status: false, ..o }, "*not filtering according to git status anymore*")
            } else {
                (TreeOptions { filter_by_git_status: true, show_hidden: true, ..o }, "*only displaying new or modified files*")
            }
        }
        OptionsChange::ToggleSizes => {
            if o.show_sizes {
                (TreeOptions { show_sizes: false, show_root_fs: false, ..o }, "*removing sizes of files and directories*")
            } else {
                (TreeOptions { show_sizes: true, show_root_fs: true, ..o }, "*now displaying sizes of files and directories*")
            }
        }
        OptionsChange::Toggle(_) => (o, ""),
    }
}

/// Change the options, and tell what changed.
pub fn change_options(change: OptionsChange, o: &mut TreeOptions) -> (message: &'static str)
    ensures
        (*final(o), message@) == options_change(change, *old(o)),
{
    let (n, message) = match change {
        OptionsChange::Toggle(f) => {
            let v = !get_flag(o, f);
            (set_flag(*o, f, v), message_of_flag(f, v))
        }
        _ => sort_changed(change, *o),
    };
    *o = n;
    message
}

/// Toggling a display option twice gives back the options as they were.
pub proof fn lemma_display_toggle_twice(f: DisplayFlag, o: TreeOptions)
    ensures
        options_change(OptionsChange::Toggle(f), options_change(OptionsChange::Toggle(f), o).0).0 == o,
{
}

/// Sorting by date sorts the tree by date and shows the dates, keeping
/// the other options; a second time it stops sorting and hides them.
pub proof fn lemma_sort_by_date_then_unsort(o: TreeOptions)
    requires
        o.sort != Sort::Date,
    ensures
        ({
            let n = options_change(OptionsChange::SortByDate, o).0;
            &&& n.sort == Sort::Date && n.show_dates
            &&& n.show_counts == o.show_counts && n.show_sizes == o.show_sizes
            &&& options_change(OptionsChange::SortByDate, n).0.sort == Sort::NoSort
            &&& !options_change(OptionsChange::SortByDate, n).0.show_dates
        }),
{
}

/// Sorting by count sorts the tree by count and shows the counts, keeping
/// the other options; a second time it stops sorting and hides them.
pub proof fn lemma_sort_by_count_then_unsort(o: TreeOptions)
    requires
        o.sort != Sort::Count,
    ensures
        ({
            let n = options_change(OptionsChange::SortByCount, o).0;
            &&& n.sort == Sort::Count && n.show_counts
            &&& n.show_dates == o.show_dates && n.show_sizes == o.show_sizes
            &&& options_change(OptionsChange::SortByCount, n).0.sort == Sort::NoSort
            &&& !options_change(OptionsChange::SortByCount, n).0.show_counts
        }),
{
}

/// Sorting by size sorts the tree by size and shows the sizes, keeping
/// the dates and counts; a second time it stops sorting and hides them.
pub proof fn lemma_sort_by_size_then_unsort(o: TreeOptions)
    requires
        o.sort != Sort::Size,
    ensures
        ({
            let n = options_change(OptionsChange::SortBySize, o).0;
            &&& n.sort == Sort::Size && n.show_sizes
            &&& n.show_counts == o.show_counts && n.show_dates == o.show_dates
            &&& options_change(OptionsChange::SortBySize, n).0.sort == Sort::NoSort
            &&& !options_change(OptionsChange::SortBySize, n).0.show_sizes
        }),
{
}

/// Sorting by type with directories first sorts the tree so; a second
/// time it stops sorting.
pub proof fn lemma_sort_dirs_first_then_unsort(o: TreeOptions)
    requires
        o.sort != Sort::TypeDirsFirst,
    ensures
        ({
            let n = options_change(OptionsChange::SortByTypeDirsFirst, o).0;
            &&& n.sort == Sort::TypeDirsFirst
            &&& options_change(OptionsChange::SortByTypeDirsFirst, n).0.sort == Sort::NoSort
        }),
{
}

/// Sorting by type with directories last sorts the tree so; a second time
/// it stops sorting.
pub proof fn lemma_sort_dirs_last_then_unsort(o: TreeOptions)
    requires
        o.sort != Sort::TypeDirsLast,
    ensures
        ({
            let n = options_change(OptionsChange::SortByTypeDirsLast, o).0;
            &&& n.sort == Sort::TypeDirsLast
            &&& options_change(OptionsChange::SortByTypeDirsLast, n).0.sort == Sort::NoSort
        }),
{
}

} // verus!
