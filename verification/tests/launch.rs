use broot::app::app_context::{AppContext, LaunchEnv};
use broot::app::mode::Mode;
use broot::app::standard_status::StatusKeys;
use broot::app::state::initial_mode;
use broot::cli::args::{Args, CliShellInstallState, TriBool};
use broot::cli::authorization::is_authorization;
use broot::cli::initial_root::{initial_root_file, InitialRootError};
use broot::cli::install_launch_args::InstallLaunchArgs;
use broot::conf::{conf_from_text, dir, Conf};
use broot::errors::ConfError;

fn args() -> Args {
    Args {
        help: false, version: false, conf: None, dates: false, no_dates: false,
        only_folders: false, no_only_folders: false, show_root_fs: false, show_git_info: false,
        no_show_git_info: false, git_status: false, hidden: false, no_hidden: false,
        git_ignored: false, no_git_ignored: false, permissions: false, no_permissions: false,
        sizes: false, no_sizes: false, sort_by_count: false, sort_by_date: false,
        sort_by_size: false, sort_by_type: false, no_tree: false, tree: false,
        sort_by_type_dirs_first: false, sort_by_type_dirs_last: false, no_sort: false,
        whale_spotting: false, trim_root: false, no_trim_root: false, outcmd: None, cmd: None,
        color: TriBool::Auto, height: None, install: false, set_install_state: None,
        print_shell_function: None, listen: None, get_root: false, write_default_conf: None,
        send: None, root: None,
    }
}

fn conf() -> Conf {
    Conf {
        files: vec!["/conf.hjson".to_string()],
        default_flags: None,
        true_colors: None,
        show_selection_mark: None,
        syntax_theme: None,
        modal: None,
        capture_mouse: None,
        disable_mouse_capture: None,
        max_panels_count: None,
        quit_on_last_cancel: None,
        file_sum_threads_count: None,
        max_staged_count: None,
        content_search_max_file_size: None,
        verbs: Vec::new(),
    }
}

fn no_keys() -> StatusKeys {
    StatusKeys {
        open_leave_dir: None, open_stay_file: None, open_leave_file: None, panel_right: None,
        panel_left_no_open: None, toggle_hidden: None, toggle_git_ignore: None,
    }
}

fn env() -> LaunchEnv {
    LaunchEnv { initial_root: "/home".to_string(), initial_file: None, true_colors_available: false }
}

#[test]
fn context_defaults() {
    let con = AppContext::from(args(), None, &no_keys(), &conf(), env()).unwrap();
    assert_eq!(con.max_panels_count, 2);
    assert_eq!(con.max_staged_count, 10000);
    assert_eq!(con.file_sum_threads_count, 5);
    assert_eq!(con.content_search_max_file_size, 10 * 1024 * 1024);
    assert!(con.capture_mouse);
    assert!(!con.modal);
    assert!(!con.true_colors);
    assert_eq!(con.config_paths, vec!["/conf.hjson".to_string()]);
    assert_eq!(con.initial_root, "/home");
    assert_eq!(initial_mode(&con), Mode::Input);
    assert_eq!(con.cmd(), None);
}

#[test]
fn context_values_are_clamped() {
    let mut c = conf();
    c.max_panels_count = Some(1000);
    c.max_staged_count = Some(3);
    c.disable_mouse_capture = Some(true);
    c.modal = Some(true);
    c.true_colors = Some(true);
    let con = AppContext::from(args(), None, &no_keys(), &c, env()).unwrap();
    assert_eq!(con.max_panels_count, 100);
    assert_eq!(con.max_staged_count, 10);
    assert!(!con.capture_mouse);
    assert!(con.true_colors);
    assert_eq!(initial_mode(&con), Mode::Command);
    c.capture_mouse = Some(true);
    let con = AppContext::from(args(), None, &no_keys(), &c, env()).unwrap();
    assert!(con.capture_mouse);
}

#[test]
fn context_refuses_bad_threads_counts() {
    for count in [0, 51] {
        let mut c = conf();
        c.file_sum_threads_count = Some(count);
        match AppContext::from(args(), None, &no_keys(), &c, env()) {
            Err(ConfError::InvalidThreadsCount { count: n }) => assert_eq!(n, count),
            _ => panic!("a bad count must be refused"),
        }
    }
}

#[test]
fn launch_cmd_comes_first() {
    let mut launch = args();
    let mut defaults = args();
    defaults.cmd = Some(":focus".to_string());
    let con = AppContext::from(launch.clone(), Some(defaults.clone()), &no_keys(), &conf(), env()).unwrap();
    assert_eq!(con.cmd(), Some(":focus"));
    launch.cmd = Some(":q".to_string());
    let con = AppContext::from(launch, Some(defaults), &no_keys(), &conf(), env()).unwrap();
    assert_eq!(con.cmd(), Some(":q"));
}

#[test]
fn install_states_are_parsed() {
    assert_eq!("undefined".parse::<CliShellInstallState>(), Ok(CliShellInstallState::Undefined));
    assert_eq!("refused".parse::<CliShellInstallState>(), Ok(CliShellInstallState::Refused));
    assert_eq!("installed".parse::<CliShellInstallState>(), Ok(CliShellInstallState::Installed));
    assert_eq!(
        "Installed".parse::<CliShellInstallState>(),
        Err("unexpected install state: \"Installed\"".to_string()),
    );
}

#[test]
fn install_argument_overrides_the_environment() {
    let mut a = args();
    let ila = InstallLaunchArgs::from(&a, Some("no".to_string())).unwrap();
    assert_eq!(ila.install, Some(false));
    let ila = InstallLaunchArgs::from(&a, Some("yes".to_string())).unwrap();
    assert_eq!(ila.install, Some(true));
    let ila = InstallLaunchArgs::from(&a, Some("maybe".to_string())).unwrap();
    assert_eq!(ila.install, None);
    let ila = InstallLaunchArgs::from(&a, None).unwrap();
    assert_eq!(ila.install, None);
    a.install = true;
    a.print_shell_function = Some("fish".to_string());
    a.set_install_state = Some(CliShellInstallState::Refused);
    let ila = InstallLaunchArgs::from(&a, Some("no".to_string())).unwrap();
    assert_eq!(ila.install, Some(true));
    assert_eq!(ila.print_shell_function, Some("fish".to_string()));
    assert_eq!(ila.set_install_state, Some(CliShellInstallState::Refused));
}

#[test]
fn tribools_unwrap() {
    assert!(TriBool::Yes.unwrap_or_else(|| false));
    assert!(!TriBool::No.unwrap_or_else(|| true));
    assert!(TriBool::Auto.unwrap_or_else(|| true));
    assert!(!TriBool::Auto.unwrap_or_else(|| false));
}

#[test]
fn authorization_answers() {
    assert!(!is_authorization("n\n"));
    assert!(!is_authorization("  N "));
    assert!(is_authorization("\n"));
    assert!(is_authorization("yes"));
    assert!(is_authorization("no"));
}

#[test]
fn config_dir_ends_with_the_application_name() {
    if let Some(d) = dir() {
        assert!(d.ends_with("broot"));
    }
}

#[test]
fn configuration_texts() {
    let mut conf = Conf::default();
    assert!(conf.verbs.is_empty());
    let text = r#"
default_flags = "gh"
modal = true
max_panels_count = 3
max_staged_count = -2
content_search_max_file_size = -5
syntax_theme = 4

[[verbs]]
invocation = "edit"
key = "F2"
shortcut = "e"
execution = "$EDITOR {file}"

[[verbs]]
invocation = "no_execution"

[[verbs]]
invocation = "bad"
execution = "echo"
leave_broot = false
from_shell = true

[[verbs]]
key = "ctrl-c"
execution = ":quit"
confirm = true
"#;
    assert!(conf_from_text(&mut conf, text).is_ok());
    assert_eq!(conf.default_flags.as_deref(), Some("gh"));
    assert_eq!(conf.modal, Some(true));
    assert_eq!(conf.max_panels_count, Some(3));
    assert_eq!(conf.max_staged_count, None);
    assert_eq!(conf.content_search_max_file_size, None);
    assert_eq!(conf.syntax_theme, None);
    assert_eq!(conf.verbs.len(), 2);
    assert_eq!(conf.verbs[0].invocation, "edit");
    assert_eq!(conf.verbs[0].execution, "$EDITOR {file}");
    assert_eq!(conf.verbs[0].key.as_deref(), Some("F2"));
    assert_eq!(conf.verbs[0].shortcut.as_deref(), Some("e"));
    assert_eq!(conf.verbs[1].invocation, "");
    assert_eq!(conf.verbs[1].execution, ":quit");
    assert_eq!(conf.verbs[1].confirm, Some(true));
    // a second file appends its flags and verbs
    let more = "default_flags = \"i\"\ncontent_search_max_file_size = 1000\n[[verbs]]\ninvocation = \"x\"\nexecution = \"y\"\n";
    assert!(conf_from_text(&mut conf, more).is_ok());
    assert_eq!(conf.default_flags.as_deref(), Some("ghi"));
    assert_eq!(conf.content_search_max_file_size, Some(1000));
    assert_eq!(conf.max_panels_count, Some(3));
    assert_eq!(conf.verbs.len(), 3);
    assert_eq!(conf.verbs[2].invocation, "x");
    // an invalid text is an error and changes nothing
    match conf_from_text(&mut conf, "default_flags = ") {
        Err(ConfError::Toml { message }) => assert!(!message.is_empty()),
        r => panic!("unexpected {r:?}"),
    }
    assert_eq!(conf.default_flags.as_deref(), Some("ghi"));
    assert_eq!(conf.verbs.len(), 3);
}

#[test]
fn authorization_answers_are_trimmed() {
    assert!(!is_authorization(" n\t\n"));
    assert!(!is_authorization("\u{3000}N "));
    assert!(is_authorization("no"));
    assert!(is_authorization("  "));
    assert!(is_authorization("y"));
}

#[test]
fn initial_roots() {
    assert_eq!(
        initial_root_file("/home".to_string(), true, true, Some("/".to_string())),
        Ok(("/home".to_string(), None)),
    );
    assert_eq!(
        initial_root_file("/home/a.txt".to_string(), true, false, Some("/home".to_string())),
        Ok(("/home".to_string(), Some("/home/a.txt".to_string()))),
    );
    assert_eq!(initial_root_file("/nope".to_string(), false, false, Some("/".to_string())), Err(InitialRootError::NotFound));
    assert_eq!(initial_root_file("x".to_string(), true, false, None), Err(InitialRootError::NotADirectory));
}
