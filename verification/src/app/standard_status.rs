//! The hints written in the status line when no verb is being typed.

use vstd::prelude::*;
use vstd::utf8::encode_utf8;
use crate::app::selection::{Selection, SelectionType};
use crate::app::state_type::PanelStateType;
use crate::app::status::Status;
use crate::path::{file_name, path_file_name};
use crate::text::push_str;

verus! {

/// The descriptions of the keys bound to the internals the standard status
/// talks about, as the verb store finds them (`None` when no key triggers
/// the internal).
pub struct StatusKeys {
    /// key of `open_leave` on a directory
    pub open_leave_dir: Option<String>,
    /// key of `open_stay` on a file
    pub open_stay_file: Option<String>,
    /// key of `open_leave` on a file
    pub open_leave_file: Option<String>,
    /// key of `panel_right`
    pub panel_right: Option<String>,
    /// key of `panel_left_no_open`
    pub panel_left_no_open: Option<String>,
    /// key of `toggle_hidden`
    pub toggle_hidden: Option<String>,
    /// key of `toggle_git_ignore`
    pub toggle_git_ignore: Option<String>,
}

/// All the precomputed status which don't involve a verb
pub struct StandardStatus {
    tree_top_focus: String,
    tree_dir_focus: String,
    tree_dir_cd: Option<String>,
    tree_file_open_stay: Option<String>,
    tree_file_open_stay_long: Option<String>,
    tree_file_open_leave: Option<String>,
    tree_unfiltered: String,
    tree_filtered: String,
    preview_unfiltered: String,
    preview_filtered: Option<String>,
    preview_restorable_filter: Option<String>,
    not_first_state: String,
    help: String,
    no_verb: String,
    pub all_files_hidden: Option<String>,
    pub all_files_git_ignored: Option<String>,
}

/// The texts of the standard status.
pub struct StandardStatusView {
    pub tree_top_focus: Seq<char>,
    pub tree_dir_focus: Seq<char>,
    pub tree_dir_cd: Option<Seq<char>>,
    pub tree_file_open_stay: Option<Seq<char>>,
    pub tree_file_open_stay_long: Option<Seq<char>>,
    pub tree_file_open_leave: Option<Seq<char>>,
    pub tree_unfiltered: Seq<char>,
    pub tree_filtered: Seq<char>,
    pub preview_unfiltered: Seq<char>,
    pub preview_filtered: Option<Seq<char>>,
    pub preview_restorable_filter: Option<Seq<char>>,
    pub not_first_state: Seq<char>,
    pub help: Seq<char>,
    pub no_verb: Seq<char>,
    pub all_files_hidden: Option<Seq<char>>,
    pub all_files_git_ignored: Option<Seq<char>>,
}

/// The view of an optional string.
pub open spec fn opt_view(o: Option<String>) -> Option<Seq<char>> {
    match o {
        Some(s) => Some(s@),
        None => None,
    }
}

impl View for StandardStatus {
    type V = StandardStatusView;

    closed spec fn view(&self) -> StandardStatusView {
        StandardStatusView {
            tree_top_focus: self.tree_top_focus@,
            tree_dir_focus: self.tree_dir_focus@,
            tree_dir_cd: opt_view(self.tree_dir_cd),
            tree_file_open_stay: opt_view(self.tree_file_open_stay),
            tree_file_open_stay_long: opt_view(self.tree_file_open_stay_long),
            tree_file_open_leave: opt_view(self.tree_file_open_leave),
            tree_unfiltered: self.tree_unfiltered@,
            tree_filtered: self.tree_filtered@,
            preview_unfiltered: self.preview_unfiltered@,
            preview_filtered: opt_view(self.preview_filtered),
            preview_restorable_filter: opt_view(self.preview_restorable_filter),
            not_first_state: self.not_first_state@,
            help: self.help@,
            no_verb: self.no_verb@,
            all_files_hidden: opt_view(self.all_files_hidden),
            all_files_git_ignored: opt_view(self.all_files_git_ignored),
        }
    }
}

/// The hint about a key: the text around the key's description, when
/// there's a key.
pub open spec fn key_hint(key: Option<String>, before: Seq<char>, after: Seq<char>) -> Option<Seq<char>> {
    match key {
        Some(k) => Some(before + k@ + after),
        None => None,
    }
}

/// The hint about a key, when there's a key.
fn hint(key: &Option<String>, before: &str, after: &str) -> (res: Option<String>)
    ensures
        opt_view(res) == key_hint(*key, before@, after@),
{
    match key {
        Some(k) => {
            let mut s = String::new();
            push_str(&mut s, before);
            push_str(&mut s, k.as_str());
            push_str(&mut s, after);
            Some(s)
        }
        None => None,
    }
}

/// The size in bytes the status can't exceed for one of its parts, or for
/// the available width: a quarter of the address space, so that the sums
/// of sizes computed while joining the parts fit in a `usize`.
pub open spec fn status_size_limit() -> int {
    usize::MAX as int / 4
}

/// The separator written before the part at index `i` among `n` parts.
pub open spec fn sep_of(i: int, n: int) -> Seq<char> {
    if i == 0 {
        "Hit "@
    } else if i == n - 1 {
        ", or "@
    } else {
        ", "@
    }
}

/// The estimated width, the markdown and whether the building stopped,
/// after the first `n` parts were considered: each part comes with its
/// separator unless the estimated width goes over `max_len` (the first
/// part always comes).
pub open spec fn status_acc(parts: Seq<Seq<char>>, max_len: int, n: nat) -> (int, Seq<char>, bool)
    decreases n,
{
    if n == 0 {
        (0, Seq::empty(), false)
    } else {
        let prev = status_acc(parts, max_len, (n - 1) as nat);
        if prev.2 {
            prev
        } else {
            let i = n - 1;
            let sep = sep_of(i, parts.len() as int);
            let sum = prev.0 + encode_utf8(sep).len() + encode_utf8(parts[i]).len() - 2;
            if i > 0 && sum > max_len {
                (sum, prev.1, true)
            } else {
                (sum, prev.1 + sep + parts[i], false)
            }
        }
    }
}

/// The markdown of the status made of the given parts, not going much
/// over `max_len`.
pub open spec fn status_md(parts: Seq<Seq<char>>, max_len: int) -> Seq<char> {
    status_acc(parts, max_len, parts.len()).1
}

/// The parts, as a sequence holding the part when there's one.
pub open spec fn opt_part(o: Option<Seq<char>>) -> Seq<Seq<char>> {
    match o {
        Some(s) => seq![s],
        None => Seq::empty(),
    }
}

/// The parts of the standard status, in order.
pub open spec fn status_parts(
    ss: StandardStatusView,
    state_type: PanelStateType,
    selection: Selection,
    has_previous_state: bool,
    is_filtered: bool,
    has_removed_pattern: bool,
    on_tree_root: bool,
    width: usize,
) -> Seq<Seq<char>> {
    let p0: Seq<Seq<char>> = if has_previous_state && !is_filtered {
        seq![ss.not_first_state]
    } else {
        Seq::empty()
    };
    match state_type {
        PanelStateType::Tree => {
            let p1 = if on_tree_root {
                if path_file_name(selection.path@) is Some { p0.push(ss.tree_top_focus) } else { p0 }
            } else if selection.stype == SelectionType::Directory {
                p0.push(ss.tree_dir_focus) + opt_part(ss.tree_dir_cd)
            } else if selection.stype == SelectionType::File {
                p0 + (if width > 105 {
                    opt_part(ss.tree_file_open_stay_long)
                } else {
                    opt_part(ss.tree_file_open_stay)
                }) + opt_part(ss.tree_file_open_leave)
            } else {
                p0
            };
            let p2 = if is_filtered { p1.push(ss.tree_filtered) } else { p1 };
            let p3 = if p2.len() < 3 { p2.push(ss.help) } else { p2 };
            if p3.len() < 4 {
                p3.push(if on_tree_root && !is_filtered { ss.tree_unfiltered } else { ss.no_verb })
            } else {
                p3
            }
        },
        PanelStateType::Preview => {
            let p1 = if is_filtered {
                p0 + opt_part(ss.preview_filtered)
            } else if has_removed_pattern {
                p0 + opt_part(ss.preview_restorable_filter)
            } else {
                p0.push(ss.preview_unfiltered)
            };
            p1.push(ss.no_verb)
        },
        PanelStateType::Help => if p0.len() < 4 { p0.push(ss.no_verb) } else { p0 },
        _ => p0,
    }
}

/// A filtered tree always hints how to clear the filter: among the parts
/// of the status of a tree state with a filter, there's the `tree_filtered`
/// hint, right after the hints on the selection (at most two), so among
/// the first three parts.
pub proof fn lemma_filtered_tree_hints_clearing(
    ss: StandardStatusView,
    selection: Selection,
    has_previous_state: bool,
    has_removed_pattern: bool,
    on_tree_root: bool,
    width: usize,
)
    ensures
        ({
            let parts = status_parts(
                ss,
                PanelStateType::Tree,
                selection,
                has_previous_state,
                true,
                has_removed_pattern,
                on_tree_root,
                width,
            );
            exists|k: int| #![trigger parts[k]] 0 <= k < 3 && k < parts.len() && parts[k] == ss.tree_filtered
        }),
{
    let parts = status_parts(
        ss,
        PanelStateType::Tree,
        selection,
        has_previous_state,
        true,
        has_removed_pattern,
        on_tree_root,
        width,
    );
    let p1 = if on_tree_root {
        if path_file_name(selection.path@) is Some { seq![ss.tree_top_focus] } else { Seq::<Seq<char>>::empty() }
    } else if selection.stype == SelectionType::Directory {
        seq![ss.tree_dir_focus] + opt_part(ss.tree_dir_cd)
    } else if selection.stype == SelectionType::File {
        Seq::<Seq<char>>::empty() + (if width > 105 {
            opt_part(ss.tree_file_open_stay_long)
        } else {
            opt_part(ss.tree_file_open_stay)
        }) + opt_part(ss.tree_file_open_leave)
    } else {
        Seq::<Seq<char>>::empty()
    };
    let k = p1.len() as int;
    assert(k <= 2);
    assert(parts[k] == ss.tree_filtered);
}

/// The texts of the standard status, given the key descriptions.
pub open spec fn standard_status_view(keys: StatusKeys) -> StandardStatusView {
    StandardStatusView {
        tree_top_focus: "*enter* to go up"@,
        tree_dir_focus: "*enter* to focus"@,
        tree_dir_cd: key_hint(keys.open_leave_dir, "*"@, "* to cd"@),
        tree_file_open_stay: key_hint(keys.open_stay_file, "*"@, "* to open"@),
        tree_file_open_stay_long: key_hint(keys.open_stay_file, "*"@, "* to open the file"@),
        tree_file_open_leave: key_hint(keys.open_leave_file, "*"@, "* to open and quit"@),
        tree_unfiltered: "a few letters to search"@,
        tree_filtered: "*esc* to clear the filter"@,
        preview_unfiltered: "a pattern to filter"@,
        preview_filtered: key_hint(keys.panel_right, "*"@, "* to reveal the text"@),
        preview_restorable_filter: key_hint(keys.panel_left_no_open, "*"@, "* to restore the filter"@),
        not_first_state: "*esc* to go back"@,
        help: "*?* for help"@,
        no_verb: "a space then a verb"@,
        all_files_hidden: key_hint(keys.toggle_hidden, "Some files are hidden, use *"@, "* to display them"@),
        all_files_git_ignored: key_hint(keys.toggle_git_ignore, "Some files are git-ignored, use *"@, "* to display them"@),
    }
}

impl StandardStatus {
    pub fn new(keys: &StatusKeys) -> (ss: StandardStatus)
        ensures
            ss@ == standard_status_view(*keys),
    {
        StandardStatus {
            tree_top_focus: "*enter* to go up".to_owned(),
            tree_dir_focus: "*enter* to focus".to_owned(),
            tree_dir_cd: hint(&keys.open_leave_dir, "*", "* to cd"),
            tree_file_open_stay: hint(&keys.open_stay_file, "*", "* to open"),
            tree_file_open_stay_long: hint(&keys.open_stay_file, "*", "* to open the file"),
            tree_file_open_leave: hint(&keys.open_leave_file, "*", "* to open and quit"),
            tree_unfiltered: "a few letters to search".to_owned(),
            tree_filtered: "*esc* to clear the filter".to_owned(),
            preview_unfiltered: "a pattern to filter".to_owned(),
            preview_filtered: hint(&keys.panel_right, "*", "* to reveal the text"),
            preview_restorable_filter: hint(&keys.panel_left_no_open, "*", "* to restore the filter"),
            not_first_state: "*esc* to go back".to_owned(),
            help: "*?* for help".to_owned(),
            no_verb: "a space then a verb".to_owned(),
            all_files_hidden: hint(&keys.toggle_hidden, "Some files are hidden, use *", "* to display them"),
            all_files_git_ignored: hint(&keys.toggle_git_ignore, "Some files are git-ignored, use *", "* to display them"),
        }
    }

    /// a builder of the status of a state of the given type, with the
    /// given selection and available width
    pub fn builder<'s>(
        &'s self,
        state_type: PanelStateType,
        selection: Selection<'s>,
        width: usize,
    ) -> (b: StandardStatusBuilder<'s>)
        ensures
            b.ss@ == self@,
            b.state_type == state_type,
            b.selection == selection,
            b.has_previous_state,
            !b.is_filtered,
            !b.has_removed_pattern,
            !b.on_tree_root,
            b.width == width,
    {
        StandardStatusBuilder::new(self, state_type, selection, width)
    }
}

/// The parts of a status, before they're joined.
struct StatusParts<'b> {
    md_parts: Vec<&'b str>,
}

/// The views of string slices.
pub open spec fn strs_view(v: Seq<&str>) -> Seq<Seq<char>> {
    Seq::new(v.len(), |i: int| v[i]@)
}

proof fn lemma_sep_len(i: int, n: int)
    ensures
        2 <= encode_utf8(sep_of(i, n)).len() <= 5,
{
    reveal_strlit("Hit ");
    reveal_strlit(", or ");
    reveal_strlit(", ");
    vstd::utf8::is_ascii_chars_encode_utf8("Hit "@);
    vstd::utf8::is_ascii_chars_encode_utf8(", or "@);
    vstd::utf8::is_ascii_chars_encode_utf8(", "@);
}

proof fn lemma_acc_stopped(parts: Seq<Seq<char>>, max_len: int, k: nat, n: nat)
    requires
        k <= n,
        status_acc(parts, max_len, k).2,
    ensures
        status_acc(parts, max_len, n) == status_acc(parts, max_len, k),
    decreases n - k,
{
    if k < n {
        lemma_acc_stopped(parts, max_len, k, (n - 1) as nat);
    }
}

impl<'b> StatusParts<'b> {
    fn empty() -> (parts: StatusParts<'b>)
        ensures
            parts.md_parts@.len() == 0,
    {
        StatusParts { md_parts: Vec::new() }
    }

    fn add(&mut self, md: &'b str)
        ensures
            strs_view(final(self).md_parts@) == strs_view(old(self).md_parts@).push(md@),
    {
        self.md_parts.push(md);
        assert(strs_view(self.md_parts@) =~= strs_view(old(self).md_parts@).push(md@));
    }

    fn addo(&mut self, md: &'b Option<String>)
        ensures
            strs_view(final(self).md_parts@) == strs_view(old(self).md_parts@) + opt_part(opt_view(*md)),
    {
        if let Some(md) = md {
            self.md_parts.push(md.as_str());
        }
        assert(strs_view(self.md_parts@) =~= strs_view(old(self).md_parts@) + opt_part(opt_view(*md)));
    }

    fn len(&self) -> (n: usize)
        ensures
            n == self.md_parts@.len(),
    {
        self.md_parts.len()
    }

    /// Build the markdown of the complete status by combining parts
    /// while not going much over the available width so that we
    /// don't have too much elision (otherwise it would be too hard to read)
    fn to_status(&self, available_width: usize) -> (status: Status)
        requires
            available_width <= status_size_limit(),
            forall|k: int| 0 <= k < self.md_parts@.len()
                ==> encode_utf8(#[trigger] self.md_parts@[k]@).len() <= status_size_limit(),
        ensures
            status.message@ == status_md(strs_view(self.md_parts@), available_width + 3),
            !status.error,
    {
        let ghost parts = strs_view(self.md_parts@);
        let n = self.md_parts.len();
        let max_len = available_width + 3;
        let mut md = String::new();
        let mut sum_len: usize = 0;
        let mut i: usize = 0;
        while i < n
            invariant_except_break
                status_acc(parts, max_len as int, i as nat) == (sum_len as int, md@, false),
            invariant
                n == parts.len(),
                n == self.md_parts@.len(),
                parts == strs_view(self.md_parts@),
                i <= n,
                max_len == available_width + 3,
                available_width <= status_size_limit(),
                forall|k: int| 0 <= k < self.md_parts@.len()
                    ==> encode_utf8(#[trigger] self.md_parts@[k]@).len() <= status_size_limit(),
                sum_len <= max_len + status_size_limit() + 5,
            ensures
                status_md(parts, max_len as int) == md@,
            decreases n - i,
        {
            let p = self.md_parts[i];
            let sep = if i == 0 {
                "Hit "
            } else if i == n - 1 {
                ", or "
            } else {
                ", "
            };
            proof {
                lemma_sep_len(i as int, n as int);
                assert(parts[i as int] == p@);
            }
            let new_sum = sum_len + sep.len() + p.len() - 2;
            if i > 0 && new_sum > max_len {
                proof {
                    lemma_acc_stopped(parts, max_len as int, (i + 1) as nat, n as nat);
                }
                break;
            }
            push_str(&mut md, sep);
            push_str(&mut md, p);
            sum_len = new_sum;
            i += 1;
        }
        Status::from_message(md)
    }
}

/// What the standard status is built from.
pub struct StandardStatusBuilder<'s> {
    pub ss: &'s StandardStatus,
    pub state_type: PanelStateType,
    pub selection: Selection<'s>,
    pub has_previous_state: bool,
    pub is_filtered: bool,
    pub has_removed_pattern: bool,
    /// should this be part of the Selection struct ?
    pub on_tree_root: bool,
    /// available width
    pub width: usize,
}

impl<'s> StandardStatusBuilder<'s> {
    fn new(
        ss: &'s StandardStatus,
        state_type: PanelStateType,
        selection: Selection<'s>,
        width: usize,
    ) -> (b: StandardStatusBuilder<'s>)
        ensures
            b.ss@ == ss@,
            b.state_type == state_type,
            b.selection == selection,
            b.has_previous_state,
            !b.is_filtered,
            !b.has_removed_pattern,
            !b.on_tree_root,
            b.width == width,
    {
        StandardStatusBuilder {
            ss,
            state_type,
            selection,
            has_previous_state: true,
            is_filtered: false,
            has_removed_pattern: false,
            on_tree_root: false,
            width,
        }
    }

    /// the status: hints joined with `Hit `, `, ` and `, or `, as many as
    /// fit in the width
    #[verifier::rlimit(40)]
    pub fn status(self) -> (status: Status)
        requires
            self.width <= status_size_limit(),
            ({
                let parts = status_parts(
                    self.ss@,
                    self.state_type,
                    self.selection,
                    self.has_previous_state,
                    self.is_filtered,
                    self.has_removed_pattern,
                    self.on_tree_root,
                    self.width,
                );
                forall|k: int| 0 <= k < parts.len() ==> encode_utf8(#[trigger] parts[k]).len() <= status_size_limit()
            }),
        ensures
            status.message@ == status_md(
                status_parts(
                    self.ss@,
                    self.state_type,
                    self.selection,
                    self.has_previous_state,
                    self.is_filtered,
                    self.has_removed_pattern,
                    self.on_tree_root,
                    self.width,
                ),
                self.width + 3,
            ),
            !status.error,
    {
        let ss = self.ss;
        let mut parts = StatusParts::empty();
        if self.has_previous_state && !self.is_filtered {
            parts.add(ss.not_first_state.as_str());
        }
        match self.state_type {
            PanelStateType::Tree => {
                if self.on_tree_root {
                    if file_name(self.selection.path).is_some() {
                        parts.add(ss.tree_top_focus.as_str());
                    }
                } else if self.selection.stype == SelectionType::Directory {
                    parts.add(ss.tree_dir_focus.as_str());
                    parts.addo(&ss.tree_dir_cd);
                } else if self.selection.stype == SelectionType::File {
                    if self.width > 105 {
                        parts.addo(&ss.tree_file_open_stay_long);
                    } else {
                        parts.addo(&ss.tree_file_open_stay);
                    }
                    parts.addo(&ss.tree_file_open_leave);
                }
                if self.is_filtered {
                    parts.add(ss.tree_filtered.as_str());
                }
                if parts.len() < 3 {
                    parts.add(ss.help.as_str());
                }
                if parts.len() < 4 {
                    if self.on_tree_root && !self.is_filtered {
                        parts.add(ss.tree_unfiltered.as_str());
                    } else {
                        parts.add(ss.no_verb.as_str());
                    }
                }
            }
            PanelStateType::Preview => {
                if self.is_filtered {
                    parts.addo(&ss.preview_filtered);
                } else if self.has_removed_pattern {
                    parts.addo(&ss.preview_restorable_filter);
                } else {
                    parts.add(ss.preview_unfiltered.as_str());
                }
                parts.add(ss.no_verb.as_str());
            }
            PanelStateType::Help => {
                if parts.len() < 4 {
                    parts.add(ss.no_verb.as_str());
                }
            }
            _ => {}
        }
        assert(strs_view(parts.md_parts@) =~= status_parts(
            self.ss@,
            self.state_type,
            self.selection,
            self.has_previous_state,
            self.is_filtered,
            self.has_removed_pattern,
            self.on_tree_root,
            self.width,
        ));
        assert forall|k: int| 0 <= k < parts.md_parts@.len()
            implies encode_utf8(#[trigger] parts.md_parts@[k]@).len() <= status_size_limit() by {
            assert(strs_view(parts.md_parts@)[k] == parts.md_parts@[k]@);
        }
        parts.to_status(self.width)
    }
}

} // verus!
