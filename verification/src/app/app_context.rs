//! The configuration things for the whole life of the application.

use vstd::prelude::*;
use crate::app::standard_status::{StandardStatus, StatusKeys, standard_status_view};
use crate::path::opt_str_view;
use crate::cli::args::Args;
use crate::command::verb_invocation::opt_string_view;
use crate::conf::Conf;
use crate::errors::ConfError;
use crate::text::strings_view;

verus! {

/// The number of threads computing sizes, counts and dates when the
/// configuration doesn't say.
pub const DEFAULT_THREAD_COUNT: usize = 5;

/// The size of the biggest file whose content is searched when the
/// configuration doesn't say.
pub const DEFAULT_MAX_FILE_SIZE: usize = 10485760;

/// What the launch found outside of the configuration: the root and the
/// file to open first, and whether the terminal seems to have true colors.
#[derive(Debug, Clone)]
pub struct LaunchEnv {
    /// The initial tree root
    pub initial_root: String,
    /// The initial file to select and preview
    pub initial_file: Option<String>,
    /// whether the terminal advertises 24 bits colors
    pub true_colors_available: bool,
}

/// The container that can be passed around to provide the configuration things
/// for the whole life of the App
pub struct AppContext {
    /// The initial tree root
    pub initial_root: String,
    /// The initial file to select and preview
    pub initial_file: Option<String>,
    /// where's the config file we're using
    pub config_paths: Vec<String>,
    /// all the arguments specified at launch
    pub launch_args: Args,
    /// the "launch arguments" found in the default_flags
    /// of the config file(s)
    pub config_default_args: Option<Args>,
    /// whether to show a triangle left to selected lines
    pub show_selection_mark: bool,
    /// the theme to use for text files previewing
    pub syntax_theme: Option<String>,
    /// precomputed status to display in standard cases
    /// (ie when no verb is involved)
    pub standard_status: StandardStatus,
    /// whether we can use 24 bits colors for previewed images
    pub true_colors: bool,
    /// modal (aka "vim) mode enabled
    pub modal: bool,
    /// Whether to support mouse interactions
    pub capture_mouse: bool,
    /// max number of panels (including preview) that can be
    /// open. Guaranteed to be at least 2.
    pub max_panels_count: usize,
    /// whether to quit broot when the user hits "escape"
    /// and there's nothing to cancel
    pub quit_on_last_cancel: bool,
    /// number of threads used by file_sum (count, size, date)
    /// computation
    pub file_sum_threads_count: usize,
    /// number of files which may be staged in one staging operation
    pub max_staged_count: usize,
    /// max file size when searching file content
    pub content_search_max_file_size: usize,
}

/// The value, brought into the range `min..=max`.
pub open spec fn clamped(v: int, min: int, max: int) -> int {
    if v < min { min } else if v > max { max } else { v }
}

/// Whether mouse interactions are supported: the `capture_mouse` setting
/// takes precedence over the older `disable_mouse_capture` one.
pub open spec fn mouse_captured(capture_mouse: Option<bool>, disable_mouse_capture: Option<bool>) -> bool {
    match (capture_mouse, disable_mouse_capture) {
        (Some(b), _) => b,
        (_, Some(b)) => !b,
        _ => true,
    }
}

/// The number of threads computing file sums, as configured.
pub open spec fn threads_count(config: Conf) -> usize {
    match config.file_sum_threads_count {
        Some(c) => c,
        None => DEFAULT_THREAD_COUNT,
    }
}

/// The value, or the default when it's not set.
pub open spec fn bool_or(o: Option<bool>, default: bool) -> bool {
    match o {
        Some(b) => b,
        None => default,
    }
}

fn clamp_usize(v: usize, min: usize, max: usize) -> (res: usize)
    requires
        min <= max,
    ensures
        res == clamped(v as int, min as int, max as int),
{
    if v < min {
        min
    } else if v > max {
        max
    } else {
        v
    }
}

fn opt_bool_or(o: Option<bool>, default: bool) -> (res: bool)
    ensures
        res == bool_or(o, default),
{
    match o {
        Some(b) => b,
        None => default,
    }
}

fn clone_strings(v: &Vec<String>) -> (res: Vec<String>)
    ensures
        strings_view(res@) == strings_view(v@),
{
    let mut res: Vec<String> = Vec::new();
    let mut i: usize = 0;
    while i < v.len()
        invariant
            i <= v@.len(),
            res@.len() == i,
            forall|k: int| 0 <= k < i ==> #[trigger] res@[k]@ == v@[k]@,
        decreases v@.len() - i,
    {
        res.push(v[i].clone());
        i += 1;
    }
    assert(strings_view(res@) =~= strings_view(v@));
    res
}

impl AppContext {
    /// build the context from the launch arguments, the key descriptions
    /// found in the verb store, the configuration and the launch
    /// environment.
    ///
    /// Fails when the configured number of threads isn't in `1..=50`.
    pub fn from(
        launch_args: Args,
        config_default_args: Option<Args>,
        keys: &StatusKeys,
        config: &Conf,
        env: LaunchEnv,
    ) -> (res: Result<AppContext, ConfError>)
        ensures
            match res {
                Ok(con) => {
                    &&& 1 <= threads_count(*config) <= 50
                    &&& con.initial_root@ == env.initial_root@
                    &&& opt_string_view(con.initial_file) == opt_string_view(env.initial_file)
                    &&& strings_view(con.config_paths@) == strings_view(config.files@)
                    &&& con.launch_args == launch_args
                    &&& con.config_default_args == config_default_args
                    &&& con.show_selection_mark == bool_or(config.show_selection_mark, false)
                    &&& opt_string_view(con.syntax_theme) == opt_string_view(config.syntax_theme)
                    &&& con.standard_status@ == standard_status_view(*keys)
                    &&& con.true_colors == bool_or(config.true_colors, env.true_colors_available)
                    &&& con.modal == bool_or(config.modal, false)
                    &&& con.capture_mouse == mouse_captured(config.capture_mouse, config.disable_mouse_capture)
                    &&& 2 <= con.max_panels_count <= 100
                    &&& 10 <= con.max_staged_count <= 100000
                    &&& con.max_panels_count == clamped(
                        match config.max_panels_count { Some(c) => c as int, None => 2 }, 2, 100)
                    &&& con.quit_on_last_cancel == bool_or(config.quit_on_last_cancel, false)
                    &&& con.file_sum_threads_count == threads_count(*config)
                    &&& con.max_staged_count == clamped(
                        match config.max_staged_count { Some(c) => c as int, None => 10000 }, 10, 100000)
                    &&& con.content_search_max_file_size == match config.content_search_max_file_size {
                        Some(s) => if s <= usize::MAX { s as int } else { usize::MAX as int },
                        None => DEFAULT_MAX_FILE_SIZE as int,
                    }
                },
                Err(e) => !(1 <= threads_count(*config) <= 50)
                    && e == ConfError::InvalidThreadsCount { count: threads_count(*config) },
            },
    {
        let config_paths = clone_strings(&config.files);
        let standard_status = StandardStatus::new(keys);
        let true_colors = opt_bool_or(config.true_colors, env.true_colors_available);
        let file_sum_threads_count = match config.file_sum_threads_count {
            Some(c) => c,
            None => DEFAULT_THREAD_COUNT,
        };
        if !(1 <= file_sum_threads_count && file_sum_threads_count <= 50) {
            return Err(ConfError::InvalidThreadsCount { count: file_sum_threads_count });
        }
        let max_panels_count = clamp_usize(
            match config.max_panels_count { Some(c) => c, None => 2 },
            2,
            100,
        );
        let capture_mouse = match (config.capture_mouse, config.disable_mouse_capture) {
            (Some(b), _) => b,
            (_, Some(b)) => !b,
            _ => true,
        };
        let max_staged_count = clamp_usize(
            match config.max_staged_count { Some(c) => c, None => 10000 },
            10,
            100000,
        );
        let content_search_max_file_size = match config.content_search_max_file_size {
            Some(s) => if s <= usize::MAX as u64 { s as usize } else { usize::MAX },
            None => DEFAULT_MAX_FILE_SIZE,
        };
        let syntax_theme = match &config.syntax_theme {
            Some(t) => Some(t.clone()),
            None => None,
        };
        Ok(AppContext {
            initial_root: env.initial_root,
            initial_file: env.initial_file,
            config_paths,
            launch_args,
            config_default_args,
            show_selection_mark: opt_bool_or(config.show_selection_mark, false),
            syntax_theme,
            standard_status,
            true_colors,
            modal: opt_bool_or(config.modal, false),
            capture_mouse,
            max_panels_count,
            quit_on_last_cancel: opt_bool_or(config.quit_on_last_cancel, false),
            file_sum_threads_count,
            max_staged_count,
            content_search_max_file_size,
        })
    }

    /// Return the --cmd argument, coming from the launch arguments (prefered)
    /// or from the default_flags parameter of a config file
    pub fn cmd(&self) -> (res: Option<&str>)
        ensures
            opt_str_view(res) == match self.launch_args.cmd {
                Some(c) => Some(c@),
                None => match self.config_default_args {
                    Some(args) => opt_string_view(args.cmd),
                    None => None,
                },
            },
    {
        match &self.launch_args.cmd {
            Some(c) => Some(c.as_str()),
            None => match &self.config_default_args {
                Some(args) => match &args.cmd {
                    Some(c) => Some(c.as_str()),
                    None => None,
                },
                None => None,
            },
        }
    }
}

} // verus!
