//! The configuration values the application context is built from, and
//! where the configuration lives.

use vstd::prelude::*;
use crate::errors::ConfError;
use crate::text::push_str;
use crate::command::verb_invocation::opt_string_view;
use crate::toml_table::{
    TomlEntries, TomlScalar, TomlScalarView, entry_at, tables_at, toml_document, toml_error_message,
    toml_arrays, toml_get, toml_get_tables, toml_parse, toml_scalars,
};

verus! {

/// A verb defined in the configuration.
#[derive(Debug, Clone)]
pub struct VerbConf {
    pub invocation: String,
    pub execution: String,
    /// the key triggering the verb, as written
    pub key: Option<String>,
    pub shortcut: Option<String>,
    pub description: Option<String>,
    pub from_shell: Option<bool>,
    pub leave_broot: Option<bool>,
    pub confirm: Option<bool>,
}

/// The mathematical value of a verb definition.
pub struct VerbConfView {
    pub invocation: Seq<char>,
    pub execution: Seq<char>,
    pub key: Option<Seq<char>>,
    pub shortcut: Option<Seq<char>>,
    pub description: Option<Seq<char>>,
    pub from_shell: Option<bool>,
    pub leave_broot: Option<bool>,
    pub confirm: Option<bool>,
}

impl View for VerbConf {
    type V = VerbConfView;

    open spec fn view(&self) -> VerbConfView {
        VerbConfView {
            invocation: self.invocation@,
            execution: self.execution@,
            key: opt_string_view(self.key),
            shortcut: opt_string_view(self.shortcut),
            description: opt_string_view(self.description),
            from_shell: self.from_shell,
            leave_broot: self.leave_broot,
            confirm: self.confirm,
        }
    }
}

/// The views of verb definitions.
pub open spec fn verbs_view(verbs: Seq<VerbConf>) -> Seq<VerbConfView> {
    Seq::new(verbs.len(), |i: int| verbs[i]@)
}

/// The values read in the configuration file(s) which the application
/// context depends on (`None` when a value isn't set).
#[derive(Debug, Clone)]
pub struct Conf {
    /// the configuration files which were read
    pub files: Vec<String>,
    /// the flags to apply before the launch arguments
    pub default_flags: Option<String>,
    pub true_colors: Option<bool>,
    pub show_selection_mark: Option<bool>,
    pub syntax_theme: Option<String>,
    pub modal: Option<bool>,
    pub capture_mouse: Option<bool>,
    pub disable_mouse_capture: Option<bool>,
    pub max_panels_count: Option<usize>,
    pub quit_on_last_cancel: Option<bool>,
    pub file_sum_threads_count: Option<usize>,
    pub max_staged_count: Option<usize>,
    pub content_search_max_file_size: Option<u64>,
    /// the verbs defined in the configuration
    pub verbs: Vec<VerbConf>,
}

impl Default for Conf {
    /// A configuration where nothing was read.
    fn default() -> (c: Conf)
        ensures
            c.files@.len() == 0,
            c.default_flags is None,
            c.true_colors is None,
            c.show_selection_mark is None,
            c.syntax_theme is None,
            c.modal is None,
            c.capture_mouse is None,
            c.disable_mouse_capture is None,
            c.max_panels_count is None,
            c.quit_on_last_cancel is None,
            c.file_sum_threads_count is None,
            c.max_staged_count is None,
            c.content_search_max_file_size is None,
            c.verbs@.len() == 0,
    {
        Conf {
            files: Vec::new(),
            default_flags: None,
            true_colors: None,
            show_selection_mark: None,
            syntax_theme: None,
            modal: None,
            capture_mouse: None,
            disable_mouse_capture: None,
            max_panels_count: None,
            quit_on_last_cancel: None,
            file_sum_threads_count: None,
            max_staged_count: None,
            content_search_max_file_size: None,
            verbs: Vec::new(),
        }
    }
}

/// The string the entries hold at the key, if it's a string.
pub open spec fn entry_string(entries: TomlEntries, key: Seq<char>) -> Option<Seq<char>> {
    match entry_at(entries, key) {
        Some(TomlScalarView::Str(s)) => Some(s),
        _ => None,
    }
}

/// The boolean the entries hold at the key, if it's a boolean.
pub open spec fn entry_bool(entries: TomlEntries, key: Seq<char>) -> Option<bool> {
    match entry_at(entries, key) {
        Some(TomlScalarView::Bool(b)) => Some(b),
        _ => None,
    }
}

/// The integer the entries hold at the key, if it's an integer.
pub open spec fn entry_int(entries: TomlEntries, key: Seq<char>) -> Option<int> {
    match entry_at(entries, key) {
        Some(TomlScalarView::Int(i)) => Some(i),
        _ => None,
    }
}

/// The count the entries hold at the key, if it's an integer which fits
/// in a `usize`.
pub open spec fn entry_count(entries: TomlEntries, key: Seq<char>) -> Option<int> {
    match entry_int(entries, key) {
        Some(i) => if 0 <= i <= usize::MAX { Some(i) } else { None },
        None => None,
    }
}

/// The verb a `[[verbs]]` entry defines: none without an `execution`, or
/// with both `leave_broot = false` and `from_shell = true`; an entry
/// without invocation gets an empty one.
pub open spec fn verb_of_entry(e: TomlEntries) -> Option<VerbConfView> {
    match entry_string(e, "execution"@) {
        None => None,
        Some(execution) => {
            let from_shell = entry_bool(e, "from_shell"@);
            let leave_broot = entry_bool(e, "leave_broot"@);
            if leave_broot == Some(false) && from_shell == Some(true) {
                None
            } else {
                Some(VerbConfView {
                    invocation: match entry_string(e, "invocation"@) {
                        Some(s) => s,
                        None => Seq::empty(),
                    },
                    execution,
                    key: entry_string(e, "key"@),
                    shortcut: entry_string(e, "shortcut"@),
                    description: entry_string(e, "description"@),
                    from_shell,
                    leave_broot,
                    confirm: entry_bool(e, "confirm"@),
                })
            }
        },
    }
}

/// The verbs the `[[verbs]]` entries define, in order.
pub open spec fn verbs_of_entries(entries: Seq<TomlEntries>) -> Seq<VerbConfView>
    decreases entries.len(),
{
    if entries.len() == 0 {
        Seq::empty()
    } else {
        let before = verbs_of_entries(entries.drop_last());
        match verb_of_entry(entries.last()) {
            Some(v) => before.push(v),
            None => before,
        }
    }
}

/// The value read when set, else the old one.
pub open spec fn or_old<T>(read: Option<T>, old: Option<T>) -> Option<T> {
    match read {
        Some(v) => Some(v),
        None => old,
    }
}

/// The count read when set, else the old one.
pub open spec fn count_or_old(read: Option<int>, old: Option<usize>) -> Option<usize> {
    match read {
        Some(v) => Some(v as usize),
        None => old,
    }
}

/// Whether `new` is the configuration `old` once a file with the given
/// root entries and arrays was read: the default flags of the file are
/// appended to the old ones, the verbs it defines are added after the old
/// ones, and each other value it sets (with the right type) replaces the
/// old one; the size limit is set to none by a negative integer.
pub open spec fn conf_read(
    old: Conf,
    new: Conf,
    root: TomlEntries,
    arrays: Map<Seq<char>, Seq<TomlEntries>>,
) -> bool {
    &&& new.files@ == old.files@
    &&& opt_string_view(new.default_flags) == match entry_string(root, "default_flags"@) {
        Some(f) => Some(match old.default_flags {
            Some(d) => d@ + f,
            None => f,
        }),
        None => opt_string_view(old.default_flags),
    }
    &&& new.true_colors == or_old(entry_bool(root, "true_colors"@), old.true_colors)
    &&& new.show_selection_mark == or_old(entry_bool(root, "show_selection_mark"@), old.show_selection_mark)
    &&& opt_string_view(new.syntax_theme) == or_old(
        entry_string(root, "syntax_theme"@),
        opt_string_view(old.syntax_theme),
    )
    &&& new.modal == or_old(entry_bool(root, "modal"@), old.modal)
    &&& new.capture_mouse == or_old(entry_bool(root, "capture_mouse"@), old.capture_mouse)
    &&& new.disable_mouse_capture == or_old(entry_bool(root, "disable_mouse_capture"@), old.disable_mouse_capture)
    &&& new.max_panels_count == count_or_old(entry_count(root, "max_panels_count"@), old.max_panels_count)
    &&& new.quit_on_last_cancel == or_old(entry_bool(root, "quit_on_last_cancel"@), old.quit_on_last_cancel)
    &&& new.file_sum_threads_count == count_or_old(
        entry_count(root, "file_sum_threads_count"@),
        old.file_sum_threads_count,
    )
    &&& new.max_staged_count == count_or_old(entry_count(root, "max_staged_count"@), old.max_staged_count)
    &&& new.content_search_max_file_size == match entry_int(root, "content_search_max_file_size"@) {
        Some(i) => if 0 <= i <= u64::MAX { Some(i as u64) } else { None },
        None => old.content_search_max_file_size,
    }
    &&& verbs_view(new.verbs@) == verbs_view(old.verbs@) + verbs_of_entries(tables_at(arrays, "verbs"@))
}

/// The string at the key of the table, if it's a string.
fn string_entry(table: &toml::Table, key: &str) -> (res: Option<String>)
    ensures
        opt_string_view(res) == entry_string(toml_scalars(*table), key@),
{
    match toml_get(table, key) {
        Some(TomlScalar::Str(s)) => Some(s),
        _ => None,
    }
}

/// The boolean at the key of the table, if it's a boolean.
fn bool_entry(table: &toml::Table, key: &str) -> (res: Option<bool>)
    ensures
        res == entry_bool(toml_scalars(*table), key@),
{
    match toml_get(table, key) {
        Some(TomlScalar::Bool(b)) => Some(b),
        _ => None,
    }
}

/// The integer at the key of the table, if it's an integer.
fn int_entry(table: &toml::Table, key: &str) -> (res: Option<i64>)
    ensures
        match res {
            Some(i) => entry_int(toml_scalars(*table), key@) == Some(i as int),
            None => entry_int(toml_scalars(*table), key@) is None,
        },
{
    match toml_get(table, key) {
        Some(TomlScalar::Int(i)) => Some(i),
        _ => None,
    }
}

/// The count at the key of the table, if it's an integer fitting a `usize`.
fn count_entry(table: &toml::Table, key: &str) -> (res: Option<usize>)
    ensures
        match res {
            Some(n) => entry_count(toml_scalars(*table), key@) == Some(n as int),
            None => entry_count(toml_scalars(*table), key@) is None,
        },
{
    match int_entry(table, key) {
        Some(i) => if 0 <= i && (i as u64) <= (usize::MAX as u64) {
            Some(i as usize)
        } else {
            None
        },
        None => None,
    }
}

/// The verb a `[[verbs]]` table defines, if it's a valid one.
fn verb_of_table(table: &toml::Table) -> (res: Option<VerbConf>)
    ensures
        match res {
            Some(v) => verb_of_entry(toml_scalars(*table)) == Some(v@),
            None => verb_of_entry(toml_scalars(*table)) is None,
        },
{
    let execution = match string_entry(table, "execution") {
        Some(s) => s,
        None => return None,
    };
    let from_shell = bool_entry(table, "from_shell");
    let leave_broot = bool_entry(table, "leave_broot");
    if leave_broot == Some(false) && from_shell == Some(true) {
        return None;
    }
    let invocation = match string_entry(table, "invocation") {
        Some(s) => s,
        None => String::new(),
    };
    Some(VerbConf {
        invocation,
        execution,
        key: string_entry(table, "key"),
        shortcut: string_entry(table, "shortcut"),
        description: string_entry(table, "description"),
        from_shell,
        leave_broot,
        confirm: bool_entry(table, "confirm"),
    })
}

/// Append the default flags the table sets, if any.
fn append_flags(flags: &mut Option<String>, table: &toml::Table)
    ensures
        opt_string_view(*final(flags)) == match entry_string(toml_scalars(*table), "default_flags"@) {
            Some(f) => Some(match *old(flags) {
                Some(d) => d@ + f,
                None => f,
            }),
            None => opt_string_view(*old(flags)),
        },
{
    if let Some(read) = string_entry(table, "default_flags") {
        let merged = match flags {
            Some(d) => {
                let mut m = d.clone();
                push_str(&mut m, read.as_str());
                m
            },
            None => read,
        };
        *flags = Some(merged);
    }
}

/// Set the value to the boolean at the key of the table, if any.
fn set_bool(value: &mut Option<bool>, table: &toml::Table, key: &str)
    ensures
        *final(value) == or_old(entry_bool(toml_scalars(*table), key@), *old(value)),
{
    if let Some(b) = bool_entry(table, key) {
        *value = Some(b);
    }
}

/// Set the value to the string at the key of the table, if any.
fn set_string(value: &mut Option<String>, table: &toml::Table, key: &str)
    ensures
        opt_string_view(*final(value)) == or_old(
            entry_string(toml_scalars(*table), key@),
            opt_string_view(*old(value)),
        ),
{
    if let Some(s) = string_entry(table, key) {
        *value = Some(s);
    }
}

/// Set the value to the count at the key of the table, if any.
fn set_count(value: &mut Option<usize>, table: &toml::Table, key: &str)
    ensures
        *final(value) == count_or_old(entry_count(toml_scalars(*table), key@), *old(value)),
{
    if let Some(n) = count_entry(table, key) {
        *value = Some(n);
    }
}

/// Set the size to the integer at the key of the table, if any (to none
/// when it's negative).
fn set_size(value: &mut Option<u64>, table: &toml::Table, key: &str)
    ensures
        *final(value) == match entry_int(toml_scalars(*table), key@) {
            Some(i) => if 0 <= i <= u64::MAX { Some(i as u64) } else { None },
            None => *old(value),
        },
{
    if let Some(i) = int_entry(table, key) {
        *value = if i >= 0 { Some(i as u64) } else { None };
    }
}

/// The scalar entries of tables.
pub open spec fn tables_entries(tables: Seq<toml::Table>) -> Seq<TomlEntries> {
    Seq::new(tables.len(), |i: int| toml_scalars(tables[i]))
}

/// Add the verbs the `[[verbs]]` tables define.
fn push_verbs(verbs: &mut Vec<VerbConf>, tables: &Vec<toml::Table>)
    ensures
        verbs_view(final(verbs)@) == verbs_view(old(verbs)@) + verbs_of_entries(tables_entries(tables@)),
{
    let ghost entries = tables_entries(tables@);
    let ghost start = verbs@;
    let mut i: usize = 0;
    while i < tables.len()
        invariant
            i <= tables@.len(),
            entries == tables_entries(tables@),
            verbs_view(verbs@) == verbs_view(start) + verbs_of_entries(entries.take(i as int)),
        decreases tables@.len() - i,
    {
        assert(entries.take(i + 1).drop_last() =~= entries.take(i as int));
        assert(entries.take(i + 1).last() == toml_scalars(tables@[i as int]));
        let ghost before = verbs@;
        if let Some(v) = verb_of_table(&tables[i]) {
            verbs.push(v);
            assert(verbs_view(verbs@) =~= verbs_view(before).push(v@));
        }
        i += 1;
    }
    assert(entries.take(entries.len() as int) =~= entries);
}

/// Read the text of a configuration file into the configuration: the
/// default flags it sets are appended to the current ones, the verbs it
/// defines are added (entries without execution, or with both
/// `leave_broot = false` and `from_shell = true`, are skipped), the other
/// values it sets replace the current ones. A text which isn't valid TOML
/// is an error and leaves the configuration unchanged.
pub fn conf_from_text(conf: &mut Conf, text: &str) -> (res: Result<(), ConfError>)
    ensures
        match toml_document(text@) {
            None => res is Err && *final(conf) == *old(conf),
            Some(doc) => res is Ok && conf_read(*old(conf), *final(conf), doc.0, doc.1),
        },
{
    let root = match toml_parse(text) {
        Ok(t) => t,
        Err(e) => {
            return Err(ConfError::Toml { message: toml_error_message(&e) });
        },
    };
    append_flags(&mut conf.default_flags, &root);
    set_bool(&mut conf.true_colors, &root, "true_colors");
    set_bool(&mut conf.show_selection_mark, &root, "show_selection_mark");
    set_string(&mut conf.syntax_theme, &root, "syntax_theme");
    set_bool(&mut conf.modal, &root, "modal");
    set_bool(&mut conf.capture_mouse, &root, "capture_mouse");
    set_bool(&mut conf.disable_mouse_capture, &root, "disable_mouse_capture");
    set_count(&mut conf.max_panels_count, &root, "max_panels_count");
    set_bool(&mut conf.quit_on_last_cancel, &root, "quit_on_last_cancel");
    set_count(&mut conf.file_sum_threads_count, &root, "file_sum_threads_count");
    set_count(&mut conf.max_staged_count, &root, "max_staged_count");
    set_size(&mut conf.content_search_max_file_size, &root, "content_search_max_file_size");
    let tables = toml_get_tables(&root, "verbs");
    proof {
        let entries = tables_at(toml_arrays(root), "verbs"@);
        assert(tables_entries(tables@) =~= entries);
    }
    push_verbs(&mut conf.verbs, &tables);
    Ok(())
}

/// The configuration directory of the application: the directory that
/// `ProjectDirs::config_dir` gives for the given names, or `None` when no
/// home directory could be found.
///
/// Trusted: `directories::ProjectDirs::from` then `config_dir`, whose
/// result depends on the operating system and the environment: nothing is
/// stated of it.
#[verifier::external_body]
fn project_config_dir(qualifier: &str, organization: &str, application: &str) -> Option<String> {
    directories::ProjectDirs::from(qualifier, organization, application)
        .map(|dirs| dirs.config_dir().to_string_lossy().to_string())
}

/// return the path to the config directory, based on XDG (`None` when no
/// home directory can be found)
pub fn dir() -> Option<String> {
    project_config_dir("org", "dystroy", "broot")
}

} // verus!
