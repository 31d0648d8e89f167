use broot::app::browser::{browser_action, BrowserAction, BrowserError, BrowserFacts};
use broot::app::cmd_result::HDir;
use broot::app::mode::Mode;
use broot::app::panel_purpose::PanelPurpose;
use broot::app::panel_id::PanelId;
use broot::app::panel_reference::PanelReference;
use broot::app::panel_state::{apply_to_stage, generic_action, GenericAction, PreviewMode};
use broot::stage::Stage;
use broot::app::state::{get_arg, parse_i32};
use broot::command::command::Command;
use broot::command::completion::{common_start, Completions};
use broot::command::internal::{Internal, InternalExecution};
use broot::command::panel_input::{KeyKind, KeyStep, KeyVerb, MouseKind, PanelInput};
use broot::command::parts::CommandParts;
use broot::command::scroll::ScrollCommand;
use broot::command::sel::move_sel;
use broot::command::sequence::{parse_command_sequence, search_verb_name, split_on, VerbNameMatch};
use broot::command::verb_invocation::VerbInvocation;
use broot::errors::ProgramError;
use broot::tree_options::{change_options, options_change_for, DisplayFlag, OptionsChange, Sort, TreeOptions};

fn options() -> TreeOptions {
    TreeOptions {
        show_hidden: false, only_folders: false, show_counts: false, show_dates: false,
        show_sizes: false, show_git_file_info: false, show_device_id: false, show_root_fs: false,
        trim_root: true, show_permissions: false, respect_git_ignore: true,
        filter_by_git_status: false, show_tree: true, sort: Sort::NoSort,
    }
}

fn invocation(args: Option<&str>, bang: bool) -> VerbInvocation {
    VerbInvocation { name: "x".to_string(), args: args.map(|s| s.to_string()), bang }
}

#[test]
fn scroll_commands() {
    assert_eq!(ScrollCommand::Lines(-3).to_lines(10), -3);
    assert_eq!(ScrollCommand::Pages(2).to_lines(10), 20);
    assert_eq!(ScrollCommand::Lines(5).apply(3, 100, 10), 8);
    assert_eq!(ScrollCommand::Pages(20).apply(3, 100, 10), 91);
    assert_eq!(ScrollCommand::Lines(-7).apply(3, 100, 10), 0);
}

#[test]
fn selection_moves() {
    assert_eq!(move_sel(2, 5, 1, false), 3);
    assert_eq!(move_sel(4, 5, 1, false), 4);
    assert_eq!(move_sel(4, 5, 1, true), 0);
    assert_eq!(move_sel(0, 5, -1, true), 4);
    assert_eq!(move_sel(0, 5, -1, false), 0);
    assert_eq!(move_sel(3, 0, 1, true), 0);
}

#[test]
fn completions() {
    assert_eq!(common_start("fooba", "foobz"), "foob");
    assert_eq!(common_start("abc", ""), "");
    assert_eq!(common_start("ab", "abc"), "ab");
    assert_eq!(common_start("abc", "ab"), "ab");
    assert_eq!(common_start("abc", "abd"), "ab");
    assert_eq!(common_start("é", "è"), "");
    assert_eq!(common_start("aé", "aé"), "aé");
    match Completions::from_list(vec!["abc".to_string(), "ab".to_string()]) {
        Completions::Common(c) => assert_eq!(c, "ab"),
        c => panic!("unexpected {c:?}"),
    }
    match Completions::from_list(vec!["ab".to_string(), "ac".to_string()]) {
        Completions::Common(c) => assert_eq!(c, "a"),
        c => panic!("unexpected {c:?}"),
    }
    match Completions::from_list(vec!["b".to_string(), "c".to_string()]) {
        Completions::List(l) => assert_eq!(l, vec!["b".to_string(), "c".to_string()]),
        c => panic!("unexpected {c:?}"),
    }
    assert!(matches!(Completions::from_list(vec![]), Completions::NoCompletion));
    match Completions::for_wholes("ca", vec!["cat", "cargo"]) {
        Completions::List(l) => assert_eq!(l, vec!["t".to_string(), "rgo".to_string()]),
        c => panic!("unexpected {c:?}"),
    }
    let themes = vec!["Dracula".to_string(), "DarkNeon".to_string(), "Nord".to_string()];
    match Completions::for_theme_arg("d", &themes) {
        Completions::Common(c) => assert_eq!(c, ""),
        Completions::List(l) => assert_eq!(l.len(), 2),
        c => panic!("unexpected {c:?}"),
    }
}

#[test]
fn sequences() {
    assert_eq!(split_on("a;b;;c", ";"), vec!["a", "b", "", "c"]);
    assert_eq!(split_on("a::b", "::"), vec!["a", "b"]);
    let names = vec!["cd".to_string(), "cp".to_string(), "quit".to_string(), "q".to_string()];
    assert_eq!(search_verb_name(&names, "q"), VerbNameMatch::Match);
    assert_eq!(search_verb_name(&names, "qu"), VerbNameMatch::Match);
    assert_eq!(search_verb_name(&names, "c"), VerbNameMatch::Ambiguous);
    assert_eq!(search_verb_name(&names, "z"), VerbNameMatch::NoMatch);
    let cmds = parse_command_sequence("toto cd;:q", ";", &names).unwrap();
    assert_eq!(cmds.len(), 3);
    assert_eq!(cmds[0].0, "toto cd");
    assert!(matches!(cmds[0].1, Command::PatternEdit { .. }));
    assert!(matches!(&cmds[1].1, Command::VerbInvocate(vi) if vi.name == "cd"));
    assert!(matches!(&cmds[2].1, Command::VerbInvocate(vi) if vi.name == "q"));
    match parse_command_sequence(":c", ";", &names) {
        Err(ProgramError::AmbiguousVerbName { name }) => assert_eq!(name, "c"),
        _ => panic!("ambiguous"),
    }
    match parse_command_sequence(":zz", ";", &names) {
        Err(ProgramError::UnknownVerb { name }) => assert_eq!(name, "zz"),
        _ => panic!("unknown"),
    }
}

#[test]
fn panel_references() {
    assert_eq!(PanelReference::from_str("active").unwrap(), PanelReference::Active);
    assert_eq!(PanelReference::from_str("LEFT").unwrap(), PanelReference::Leftest);
    assert_eq!(PanelReference::from_str("rightest").unwrap(), PanelReference::Rightest);
    assert_eq!(PanelReference::from_str("preview").unwrap(), PanelReference::Preview);
    assert_eq!(PanelReference::from_str("id:12").unwrap(), PanelReference::Id(PanelId(12)));
    assert_eq!(PanelReference::from_str("idx:3").unwrap(), PanelReference::Idx(3));
    assert!(PanelReference::from_str("middle").is_err());
    assert!(PanelReference::from_str("idx:105").is_err());
    assert_eq!(PanelReference::Idx(42).to_text(), "idx:42");
    assert_eq!(PanelReference::Id(PanelId(7)).to_text(), "id:7");
    for r in [PanelReference::Active, PanelReference::Leftest, PanelReference::Idx(99), PanelReference::Id(PanelId(0))] {
        assert_eq!(PanelReference::from_str(&r.to_text()).unwrap(), r);
    }
    assert!(PanelReference::default().is_default());
    assert!(!PanelReference::Preview.is_default());
}

#[test]
fn verb_invocations() {
    let vi = VerbInvocation::from("!rm -rf a");
    assert_eq!(vi.name, "rm");
    assert!(vi.bang);
    assert_eq!(vi.args, Some("-rf a".to_string()));
    assert_eq!(vi.to_text(), ":!rm -rf a");
    assert!(VerbInvocation::from("").is_empty());
    let parts = CommandParts::from("abc :cp");
    assert!(parts.has_not_empty_verb_invocation());
    assert!(matches!(Command::from_raw("abc :cp", true), Command::VerbInvocate(_)));
    assert!(matches!(Command::from_raw("abc", true), Command::Internal { internal: Internal::open_stay, .. }));
    assert!(Command::empty().is_none());
}

#[test]
fn integers_are_parsed() {
    assert_eq!(parse_i32("12"), Some(12));
    assert_eq!(parse_i32("-5"), Some(-5));
    assert_eq!(parse_i32("+7"), Some(7));
    assert_eq!(parse_i32("007"), Some(7));
    assert_eq!(parse_i32(""), None);
    assert_eq!(parse_i32("-"), None);
    assert_eq!(parse_i32("+"), None);
    assert_eq!(parse_i32(" 1"), None);
    assert_eq!(parse_i32("1a"), None);
    assert_eq!(parse_i32("2147483647"), Some(i32::MAX));
    assert_eq!(parse_i32("2147483648"), None);
    assert_eq!(parse_i32("-2147483648"), Some(i32::MIN));
    assert_eq!(parse_i32("-2147483649"), None);
    assert_eq!(parse_i32("99999999999999999999"), None);
    assert_eq!(parse_i32("\u{663}"), None);
    for s in ["0", "42", "-42", "+3", "2147483647", "12a", "", "-0"] {
        assert_eq!(parse_i32(s), s.parse::<i32>().ok());
    }
}

#[test]
fn numeric_arguments() {
    let mut exec = InternalExecution::from_internal(Internal::line_down);
    assert_eq!(get_arg(None, &exec, 1), 1);
    exec.arg = Some("3".to_string());
    assert_eq!(get_arg(None, &exec, 1), 3);
    let vi = invocation(Some("5"), false);
    assert_eq!(get_arg(Some(&vi), &exec, 1), 5);
    let vi = invocation(None, false);
    assert_eq!(get_arg(Some(&vi), &exec, 1), 3);
    let vi = invocation(Some("many"), false);
    assert_eq!(get_arg(Some(&vi), &exec, 1), 1);
}

#[test]
fn tree_options_are_changed() {
    let mut o = options();
    assert_eq!(options_change_for(Internal::toggle_hidden), Some(OptionsChange::Toggle(DisplayFlag::Hidden)));
    assert_eq!(options_change_for(Internal::back), None);
    let m = change_options(OptionsChange::Toggle(DisplayFlag::Hidden), &mut o);
    assert_eq!(m, "h:**y** - *Hidden files displayed*");
    assert!(o.show_hidden);
    let m = change_options(OptionsChange::Toggle(DisplayFlag::Hidden), &mut o);
    assert_eq!(m, "h:**n** - *Hidden files not displayed*");
    assert!(!o.show_hidden);
    let m = change_options(OptionsChange::SortBySize, &mut o);
    assert_eq!(m, "*now sorting files and directories by total size*");
    assert_eq!(o.sort, Sort::Size);
    assert!(o.show_sizes && o.show_root_fs);
    let m = change_options(OptionsChange::SortBySize, &mut o);
    assert_eq!(m, "*not sorting anymore*");
    assert_eq!(o.sort, Sort::NoSort);
    assert!(!o.show_sizes && o.show_root_fs);
    assert_eq!(change_options(OptionsChange::SortByType, &mut o), "*sorting by type, directories first*");
    assert_eq!(change_options(OptionsChange::SortByType, &mut o), "*sorting by type, directories last*");
    assert_eq!(change_options(OptionsChange::SortByType, &mut o), "*not sorting anymore*");
    assert_eq!(change_options(OptionsChange::NoSort, &mut o), "*still not searching*");
    let m = change_options(OptionsChange::ToggleGitStatus, &mut o);
    assert_eq!(m, "*only displaying new or modified files*");
    assert!(o.filter_by_git_status && o.show_hidden);
    let m = change_options(OptionsChange::ToggleSizes, &mut o);
    assert_eq!(m, "*now displaying sizes of files and directories*");
    assert!(o.show_sizes && o.show_root_fs);
    let m = change_options(OptionsChange::ToggleSizes, &mut o);
    assert_eq!(m, "*removing sizes of files and directories*");
    assert!(!o.show_sizes && !o.show_root_fs);
}

#[test]
fn generic_actions() {
    let exec = |i: Internal| InternalExecution::from_internal(i);
    let id = PanelId(4);
    assert_eq!(generic_action(&exec(Internal::back), None, None, None, false), GenericAction::PopState);
    let bang = invocation(None, true);
    assert_eq!(
        generic_action(&exec(Internal::help), Some(&bang), None, None, false),
        GenericAction::Help { in_new_panel: true },
    );
    assert_eq!(
        generic_action(&exec(Internal::help), Some(&bang), Some(id), None, false),
        GenericAction::Help { in_new_panel: false },
    );
    assert_eq!(
        generic_action(&exec(Internal::close_preview), None, Some(id), None, false),
        GenericAction::ClosePanel { validate_purpose: false, panel_ref: PanelReference::Id(id) },
    );
    assert_eq!(generic_action(&exec(Internal::close_preview), None, None, None, false), GenericAction::Keep);
    assert_eq!(generic_action(&exec(Internal::toggle_staging_area), None, None, None, false), GenericAction::OpenStagingArea);
    assert_eq!(generic_action(&exec(Internal::open_staging_area), None, None, Some(id), false), GenericAction::Keep);
    assert_eq!(
        generic_action(&exec(Internal::panel_left), None, None, None, false),
        GenericAction::HandleInApp(Internal::panel_left_no_open),
    );
    assert_eq!(
        generic_action(&exec(Internal::preview_binary), None, None, None, false),
        GenericAction::OpenPreview { mode: Some(PreviewMode::Hex), close_if_open: false },
    );
    assert_eq!(
        generic_action(&exec(Internal::toggle_dates), Some(&bang), None, None, false),
        GenericAction::ChangeOptions { change: OptionsChange::Toggle(DisplayFlag::Dates), in_new_panel: true },
    );
    assert_eq!(generic_action(&exec(Internal::mode_command), None, None, None, true), GenericAction::SetMode(Mode::Command));
    assert_eq!(
        generic_action(&exec(Internal::mode_input), None, None, None, false),
        GenericAction::DisplayError("modal mode not enabled in configuration".to_string()),
    );
    assert_eq!(generic_action(&exec(Internal::line_up), None, None, None, false), GenericAction::Keep);
}

#[test]
fn input_escapes_and_completions() {
    let mut input = PanelInput::new();
    input.set_content("abc :c");
    match input.escape(true, Mode::Input) {
        Command::Internal { internal: Internal::mode_command, input_invocation: None } => {}
        c => panic!("unexpected {c:?}"),
    }
    assert_eq!(input.get_content(), "abc :c");
    match input.escape(false, Mode::Input) {
        Command::Internal { internal: Internal::back, input_invocation: Some(vi) } => assert_eq!(vi.name, ":c"),
        c => panic!("unexpected {c:?}"),
    }
    assert_eq!(input.get_content(), "");
    // cycling among completions, then canceling the cycle
    input.set_content(":c");
    let list = || Completions::List(vec!["d".to_string(), "p".to_string()]);
    assert_eq!(input.completion_base(), ":c");
    input.apply_completions(list());
    assert_eq!(input.get_content(), ":cd");
    assert_eq!(input.completion_base(), ":c");
    input.apply_completions(list());
    assert_eq!(input.get_content(), ":cp");
    input.apply_completions(list());
    assert_eq!(input.get_content(), ":cd");
    match input.escape(false, Mode::Input) {
        Command::VerbEdit(vi) => assert_eq!(vi.name, "c"),
        c => panic!("unexpected {c:?}"),
    }
    assert_eq!(input.get_content(), ":c");
    input.apply_completions(Completions::Common("p".to_string()));
    assert_eq!(input.get_content(), ":cp");
    assert!(input.apply_completions(Completions::NoCompletion).is_none());
    assert!(matches!(PanelInput::mouse_command(false, MouseKind::LeftUp, true, 3, 4), Command::DoubleClick(3, 4)));
    assert!(matches!(PanelInput::mouse_command(false, MouseKind::LeftUp, false, 3, 4), Command::Click(3, 4)));
    assert!(PanelInput::mouse_command(true, MouseKind::LeftUp, false, 3, 4).is_none());
    assert!(matches!(
        PanelInput::mouse_command(false, MouseKind::ScrollDown, false, 0, 0),
        Command::Internal { internal: Internal::line_down, .. }
    ));
}

fn key_verb(verb_id: usize, internal: Option<Internal>, auto_exec: bool) -> Option<KeyVerb> {
    Some(KeyVerb { verb_id, internal, auto_exec, has_invocation_pattern: false })
}

#[test]
fn keys_make_commands() {
    let mut input = PanelInput::new();
    input.set_content(":cd");
    assert!(matches!(
        input.on_key(KeyKind::Other, None, key_verb(0, Some(Internal::next_match), false), Mode::Input, false),
        KeyStep::Complete
    ));
    assert!(matches!(
        input.on_key(KeyKind::Enter, None, None, Mode::Input, false),
        KeyStep::Command(Command::VerbInvocate(vi)) if vi.name == "cd"
    ));
    match input.on_key(KeyKind::Other, None, key_verb(1, Some(Internal::escape), false), Mode::Input, false) {
        KeyStep::Command(Command::Internal { internal: Internal::back, input_invocation: Some(vi) }) => {
            assert_eq!(vi.name, "cd")
        }
        s => panic!("unexpected {s:?}"),
    }
    assert_eq!(input.get_content(), "");
    assert!(matches!(
        input.on_key(KeyKind::QuestionMark, Some('?'), None, Mode::Input, false),
        KeyStep::Command(Command::Internal { internal: Internal::help, input_invocation: None })
    ));
    // an empty input can't be cleared
    assert!(matches!(
        input.on_key(KeyKind::Other, None, key_verb(2, Some(Internal::input_clear), false), Mode::Input, false),
        KeyStep::ForInputField
    ));
    input.set_content("abc");
    assert!(matches!(
        input.on_key(KeyKind::QuestionMark, Some('?'), None, Mode::Input, false),
        KeyStep::ForInputField
    ));
    assert!(matches!(
        input.on_key(KeyKind::Other, None, key_verb(2, Some(Internal::input_del_char_left), false), Mode::Input, false),
        KeyStep::InputVerb(Internal::input_del_char_left)
    ));
    assert!(matches!(
        input.on_key(KeyKind::Other, None, key_verb(7, None, true), Mode::Input, false),
        KeyStep::Command(Command::VerbTrigger { verb_id: 7, input_invocation: None })
    ));
    // a key entering input mode is added when it's a colon or a space
    input.set_content("");
    assert!(matches!(
        input.on_key(KeyKind::Other, Some(':'), key_verb(3, Some(Internal::mode_input), false), Mode::Command, true),
        KeyStep::ForInputField
    ));
    assert_eq!(input.get_content(), ":");
    let verb = KeyVerb { verb_id: 4, internal: None, auto_exec: false, has_invocation_pattern: true };
    assert!(matches!(input.after_key_verb(verb, None, Mode::Input), KeyStep::EditInvocation));
}

#[test]
fn clearing_the_stage() {
    let id = PanelId(4);
    let mut stage = Stage::from_paths(vec!["/a".to_string(), "/b".to_string()]);
    let exec = InternalExecution::from_internal(Internal::clear_stage);
    let action = generic_action(&exec, None, None, Some(id), false);
    assert_eq!(action, GenericAction::ClearStage { stage_panel: Some(id) });
    assert_eq!(
        apply_to_stage(action, &mut stage),
        GenericAction::ClosePanel { validate_purpose: false, panel_ref: PanelReference::Id(id) },
    );
    assert!(stage.is_empty());
    let mut stage = Stage::from_paths(vec!["/a".to_string()]);
    assert_eq!(apply_to_stage(GenericAction::ClearStage { stage_panel: None }, &mut stage), GenericAction::Keep);
    assert!(stage.is_empty());
    let mut stage = Stage::from_paths(vec!["/a".to_string()]);
    assert_eq!(apply_to_stage(GenericAction::Stage, &mut stage), GenericAction::Stage);
    assert_eq!(stage.len(), 1);
}

fn facts() -> BrowserFacts {
    BrowserFacts {
        filtered: false,
        total_search: false,
        selection: 3,
        displayed_selection: 3,
        root_has_parent: true,
        selected_is_file: true,
        is_first_panel: true,
        is_last_panel: true,
        panels_count: 1,
        max_panels_count: 2,
        has_preview_panel: false,
        has_stage_panel: false,
        arg_edition: false,
        page_height: 20,
    }
}

#[test]
fn tree_state_decisions() {
    let exec = InternalExecution::from_internal;
    let f = facts();
    assert_eq!(browser_action(&exec(Internal::back), None, f), BrowserAction::SelectRoot);
    assert_eq!(browser_action(&exec(Internal::back), None, BrowserFacts { selection: 0, ..f }), BrowserAction::PopState);
    assert_eq!(browser_action(&exec(Internal::back), None, BrowserFacts { filtered: true, ..f }), BrowserAction::Unfilter);
    let three = invocation(Some("3"), false);
    assert_eq!(
        browser_action(&exec(Internal::line_up), Some(&three), f),
        BrowserAction::MoveSelection { count: -3, cycle: true },
    );
    assert_eq!(
        browser_action(&exec(Internal::line_down_no_cycle), None, f),
        BrowserAction::MoveSelection { count: 1, cycle: false },
    );
    assert_eq!(browser_action(&exec(Internal::page_up), None, f), BrowserAction::Scroll { count: -20 });
    assert_eq!(
        browser_action(&exec(Internal::panel_right), None, f),
        BrowserAction::NewPanelOnSelection { purpose: PanelPurpose::Preview, direction: HDir::Right },
    );
    assert_eq!(
        browser_action(&exec(Internal::panel_right), None, BrowserFacts { panels_count: 2, ..f }),
        BrowserAction::HandleInApp(Internal::panel_right_no_open),
    );
    assert_eq!(
        browser_action(&exec(Internal::panel_left), None, BrowserFacts { is_first_panel: false, ..f }),
        BrowserAction::HandleInApp(Internal::panel_left_no_open),
    );
    let bang = invocation(None, true);
    assert_eq!(browser_action(&exec(Internal::root_up), Some(&bang), f), BrowserAction::RootUp { in_new_panel: true });
    assert_eq!(
        browser_action(&exec(Internal::up_tree), None, BrowserFacts { root_has_parent: false, ..f }),
        BrowserAction::Error(BrowserError::NoParentFound),
    );
    assert_eq!(
        browser_action(&exec(Internal::root_down), None, BrowserFacts { displayed_selection: 0, ..f }),
        BrowserAction::Error(BrowserError::NoSelectedLine),
    );
    assert_eq!(browser_action(&exec(Internal::total_search), None, f), BrowserAction::Error(BrowserError::NoSearch));
    assert_eq!(
        browser_action(&exec(Internal::total_search), None, BrowserFacts { filtered: true, total_search: true, ..f }),
        BrowserAction::Error(BrowserError::AlreadyTotal),
    );
    assert_eq!(
        browser_action(&exec(Internal::total_search), None, BrowserFacts { filtered: true, ..f }),
        BrowserAction::TotalSearch,
    );
    assert_eq!(browser_action(&exec(Internal::start_end_panel), Some(&bang), f), BrowserAction::NewArgEditionPanel);
    assert_eq!(
        browser_action(&exec(Internal::start_end_panel), None, BrowserFacts { arg_edition: true, ..f }),
        BrowserAction::ValidatePurpose,
    );
    assert_eq!(
        browser_action(&exec(Internal::stage_all_files), None, f),
        BrowserAction::StageAll { open_stage_panel: true },
    );
    assert_eq!(browser_action(&exec(Internal::help), None, f), BrowserAction::Generic);
    assert_eq!(BrowserError::NoSelectedLine.message(), "No selected line");
}
