//! The input of a panel: what was typed, and the cycling among
//! completions, turned into commands.

use vstd::prelude::*;
use crate::app::mode::Mode;
use crate::command::command::{Command, CommandView, command_from_parts, command_from_raw};
use crate::command::completion::{Completions, CompletionsView};
use crate::command::internal::Internal;
use crate::command::parts::{CommandParts, parse_command_parts};
use crate::command::verb_invocation::opt_string_view;
use crate::text::{push_str, string_push};

verus! {

/// Wrap the input of a panel, receive events and make commands
#[derive(Debug)]
pub struct PanelInput {
    /// what's typed in the input field
    content: String,
    tab_cycle_count: usize,
    input_before_cycle: Option<String>,
}

/// The mathematical value of a panel input.
pub struct PanelInputView {
    pub content: Seq<char>,
    pub tab_cycle_count: nat,
    pub input_before_cycle: Option<Seq<char>>,
}

impl View for PanelInput {
    type V = PanelInputView;

    closed spec fn view(&self) -> PanelInputView {
        PanelInputView {
            content: self.content@,
            tab_cycle_count: self.tab_cycle_count as nat,
            input_before_cycle: opt_string_view(self.input_before_cycle),
        }
    }
}

/// What a mouse event is about.
#[derive(Debug, Clone, Copy, PartialEq, Eq, Structural)]
pub enum MouseKind {
    /// the release of the left button
    LeftUp,
    ScrollDown,
    ScrollUp,
    Other,
}

/// The input once escaped, and the command: the tab cycling is canceled
/// when there's one (the input before the cycle comes back); else a modal
/// application in input mode goes to command mode; else the input is
/// cleared and the command is going back, with the verb invocation which
/// was typed.
pub open spec fn escaped(v: PanelInputView, modal: bool, mode: Mode) -> (PanelInputView, CommandView) {
    match v.input_before_cycle {
        Some(raw) => (
            PanelInputView { content: raw, tab_cycle_count: 0, input_before_cycle: None },
            command_from_raw(raw, false),
        ),
        None => if modal && mode == Mode::Input {
            (
                PanelInputView { tab_cycle_count: 0, ..v },
                CommandView::Internal { internal: Internal::mode_command, input_invocation: None },
            )
        } else {
            (
                PanelInputView { content: Seq::empty(), tab_cycle_count: 0, ..v },
                CommandView::Internal {
                    internal: Internal::back,
                    input_invocation: parse_command_parts(v.content).verb_invocation,
                },
            )
        },
    }
}

/// The input once completed with the given completions (computed from
/// `completion_base`), and the raw input of the command when something
/// was added: a common completion is added; in a list, the completions
/// are taken in turn at each call, each one being added to the input as
/// it was before the cycle.
pub open spec fn completed(v: PanelInputView, c: CompletionsView) -> (PanelInputView, Option<Seq<char>>) {
    match c {
        CompletionsView::NoCompletion => (
            PanelInputView { tab_cycle_count: 0, input_before_cycle: None, ..v },
            None,
        ),
        CompletionsView::Common(added) => {
            let base = match v.input_before_cycle { Some(b) => b, None => v.content };
            (
                PanelInputView { content: base + added, tab_cycle_count: 0, ..v },
                Some(base + added),
            )
        },
        CompletionsView::List(list) => {
            let idx = v.tab_cycle_count % list.len();
            let before = if v.tab_cycle_count == 0 { Some(v.content) } else { v.input_before_cycle };
            let base = match before { Some(b) => b, None => v.content };
            (
                PanelInputView {
                    content: base + list[idx as int],
                    tab_cycle_count: v.tab_cycle_count + 1,
                    input_before_cycle: before,
                },
                Some(base + list[idx as int]),
            )
        },
    }
}

/// The command of a mouse event: nothing when the input field used it,
/// a click or double click on the release of the left button, a line down
/// or up on a scroll.
pub open spec fn mouse_command(consumed: bool, kind: MouseKind, double_click: bool, column: u16, row: u16) -> CommandView {
    if consumed {
        CommandView::NoCommand
    } else {
        match kind {
            MouseKind::LeftUp => if double_click {
                CommandView::DoubleClick(column, row)
            } else {
                CommandView::Click(column, row)
            },
            MouseKind::ScrollDown => CommandView::Internal { internal: Internal::line_down, input_invocation: None },
            MouseKind::ScrollUp => CommandView::Internal { internal: Internal::line_up, input_invocation: None },
            MouseKind::Other => CommandView::NoCommand,
        }
    }
}

fn clone_opt(o: &Option<String>) -> (res: Option<String>)
    ensures
        opt_string_view(res) == opt_string_view(*o),
{
    match o {
        Some(s) => Some(s.clone()),
        None => None,
    }
}

impl PanelInput {
    pub fn new() -> (pi: PanelInput)
        ensures
            pi@ == (PanelInputView { content: Seq::empty(), tab_cycle_count: 0, input_before_cycle: None }),
    {
        PanelInput { content: String::new(), tab_cycle_count: 0, input_before_cycle: None }
    }

    pub fn set_content(&mut self, content: &str)
        ensures
            final(self)@ == (PanelInputView { content: content@, ..old(self)@ }),
    {
        self.content = content.to_owned();
    }

    pub fn get_content(&self) -> (content: String)
        ensures
            content@ == self@.content,
    {
        self.content.clone()
    }

    /// escape (bound to the 'esc' key)
    pub fn escape(&mut self, modal: bool, mode: Mode) -> (cmd: Command)
        ensures
            (final(self)@, cmd@) == escaped(old(self)@, modal, mode),
    {
        self.tab_cycle_count = 0;
        if let Some(raw) = self.input_before_cycle.take() {
            // we cancel the tab cycling
            let cmd = Command::from_raw(raw.as_str(), false);
            self.content = raw;
            cmd
        } else if modal && mode == Mode::Input {
            // leave insertion mode
            Command::Internal { internal: Internal::mode_command, input_invocation: None }
        } else {
            // general back command
            let parts = CommandParts::from(self.content.as_str());
            self.content = String::new();
            Command::Internal { internal: Internal::back, input_invocation: parts.verb_invocation }
        }
    }

    /// the input from which the completions are computed: the one before
    /// the cycle, when cycling
    pub fn completion_base(&self) -> (base: String)
        ensures
            base@ == match self@.input_before_cycle {
                Some(b) => b,
                None => self@.content,
            },
    {
        match &self.input_before_cycle {
            Some(b) => b.clone(),
            None => self.content.clone(),
        }
    }

    /// add to the input the completion to use (bound to 'tab'), and give
    /// the command of the new input
    pub fn apply_completions(&mut self, completions: Completions) -> (cmd: Command)
        requires
            old(self)@.tab_cycle_count < usize::MAX,
            completions@ matches CompletionsView::List(list) ==> list.len() > 0,
        ensures
            final(self)@ == completed(old(self)@, completions@).0,
            cmd@ == match completed(old(self)@, completions@).1 {
                Some(raw) => command_from_raw(raw, false),
                None => CommandView::NoCommand,
            },
    {
        let ghost v = self@;
        let added: Option<String> = match completions {
            Completions::NoCompletion => {
                self.tab_cycle_count = 0;
                self.input_before_cycle = None;
                None
            }
            Completions::Common(completion) => {
                self.tab_cycle_count = 0;
                Some(completion)
            }
            Completions::List(mut completions) => {
                let ghost list = completions@;
                let idx = self.tab_cycle_count % completions.len();
                if self.tab_cycle_count == 0 {
                    self.input_before_cycle = Some(self.content.clone());
                }
                self.tab_cycle_count += 1;
                let chosen = completions.swap_remove(idx);
                assert(chosen@ == list[idx as int]@);
                Some(chosen)
            }
        };
        match added {
            Some(added) => {
                let mut raw = self.completion_base();
                push_str(&mut raw, added.as_str());
                let cmd = Command::from_raw(raw.as_str(), false);
                self.content = raw;
                cmd
            }
            None => Command::NoCommand,
        }
    }

    /// the command of a mouse event, knowing whether the input field used
    /// it
    pub fn mouse_command(consumed: bool, kind: MouseKind, double_click: bool, column: u16, row: u16) -> (cmd: Command)
        ensures
            cmd@ == mouse_command(consumed, kind, double_click, column, row),
    {
        if consumed {
            Command::NoCommand
        } else {
            match kind {
                MouseKind::LeftUp => if double_click {
                    Command::DoubleClick(column, row)
                } else {
                    Command::Click(column, row)
                },
                MouseKind::ScrollDown => Command::Internal { internal: Internal::line_down, input_invocation: None },
                MouseKind::ScrollUp => Command::Internal { internal: Internal::line_up, input_invocation: None },
                MouseKind::Other => Command::NoCommand,
            }
        }
    }
}

/// What the key is, for the input.
#[derive(Debug, Clone, Copy, PartialEq, Eq, Structural)]
pub enum KeyKind {
    Enter,
    /// `?`, shifted or not
    QuestionMark,
    Other,
}

/// The verb a key triggers, as the verb store finds it for the
/// selection and the panel.
#[derive(Debug, Clone, Copy, PartialEq, Eq, Structural)]
pub struct KeyVerb {
    pub verb_id: usize,
    /// the internal the verb executes, if it's one
    pub internal: Option<Internal>,
    /// whether the verb is executed as soon as its key is hit
    pub auto_exec: bool,
    /// whether the verb has an invocation pattern
    pub has_invocation_pattern: bool,
}

/// What the input does with a key, before anything the input field
/// itself does.
#[derive(Debug)]
pub enum KeyStep {
    /// the command to apply
    Command(Command),
    /// the verb invocation must be completed: the completions of
    /// `completion_base` are to be given to `apply_completions`
    Complete,
    /// the internal acts on the input field; when it changed nothing,
    /// `after_key_verb` goes on
    InputVerb(Internal),
    /// the invocation of the verb, with default arguments, is to be edited
    EditInvocation,
    /// the key is for the input field (in input mode)
    ForInputField,
}

/// The mathematical value of a step.
pub enum KeyStepView {
    Command(CommandView),
    Complete,
    InputVerb(Internal),
    EditInvocation,
    ForInputField,
}

impl View for KeyStep {
    type V = KeyStepView;

    open spec fn view(&self) -> KeyStepView {
        match self {
            KeyStep::Command(c) => KeyStepView::Command(c@),
            KeyStep::Complete => KeyStepView::Complete,
            KeyStep::InputVerb(i) => KeyStepView::InputVerb(*i),
            KeyStep::EditInvocation => KeyStepView::EditInvocation,
            KeyStep::ForInputField => KeyStepView::ForInputField,
        }
    }
}

/// Whether the internal acts on the input field.
pub open spec fn is_input_internal(internal: Internal) -> bool {
    match internal {
        Internal::input_clear | Internal::input_del_char_left | Internal::input_del_char_below
        | Internal::input_del_word_left | Internal::input_del_word_right | Internal::input_go_left
        | Internal::input_go_right | Internal::input_go_word_left | Internal::input_go_word_right
        | Internal::input_go_to_start | Internal::input_go_to_end | Internal::input_selection_cut
        | Internal::input_selection_copy | Internal::input_paste => true,
        _ => false,
    }
}

/// Whether the verb executes the given internal.
pub open spec fn verb_is(verb: Option<KeyVerb>, internal: Internal) -> bool {
    verb matches Some(v) && v.internal == Some(internal)
}

/// What's done with a key once the verb can't act on the input field:
/// in command mode a verb entering input mode adds its key to the input
/// when it's a space or a colon and no verb is typed; then the verb is
/// executed when it's automatic, or its invocation is edited, else the key
/// goes to the input field.
pub open spec fn after_verb(v: PanelInputView, verb: KeyVerb, letter: Option<char>, mode: Mode) -> (PanelInputView, KeyStepView) {
    let parts = parse_command_parts(v.content);
    let v1 = if mode != Mode::Input && verb.internal == Some(Internal::mode_input)
        && parts.verb_invocation is None
        && (letter == Some(' ') || letter == Some(':')) {
        PanelInputView { content: v.content.push(letter->0), ..v }
    } else {
        v
    };
    if verb.auto_exec {
        (v1, KeyStepView::Command(CommandView::VerbTrigger { verb_id: verb.verb_id, input_invocation: parts.verb_invocation }))
    } else if verb.has_invocation_pattern {
        (v1, KeyStepView::EditInvocation)
    } else {
        (v1, KeyStepView::ForInputField)
    }
}

/// What's done with a key, given the verb it triggers (if any): escaping,
/// completing, executing the typed verb on enter, opening the help on a
/// `?` (when the input is empty or a verb is typed), acting on the input
/// field, then what `after_verb` says. Any key but the one of completion
/// ends the cycling among completions.
pub open spec fn key_step(
    v: PanelInputView,
    key: KeyKind,
    letter: Option<char>,
    verb: Option<KeyVerb>,
    mode: Mode,
    modal: bool,
) -> (PanelInputView, KeyStepView) {
    let parts = parse_command_parts(v.content);
    if verb_is(verb, Internal::escape) {
        let (e, c) = escaped(v, modal, mode);
        (e, KeyStepView::Command(c))
    } else if verb_is(verb, Internal::next_match) && parts.verb_invocation is Some {
        (v, KeyStepView::Complete)
    } else {
        let v1 = if verb_is(verb, Internal::next_match) {
            v
        } else {
            PanelInputView { tab_cycle_count: 0, input_before_cycle: None, ..v }
        };
        if key == KeyKind::Enter && (parts.verb_invocation matches Some(vi) && vi.name.len() > 0) {
            (v1, KeyStepView::Command(command_from_parts(parts.raw_pattern, parts.tree, parts.verb_invocation, true)))
        } else if key == KeyKind::QuestionMark && (v.content.len() == 0 || parts.verb_invocation is Some) {
            (v1, KeyStepView::Command(CommandView::Internal { internal: Internal::help, input_invocation: parts.verb_invocation }))
        } else {
            match verb {
                Some(kv) => if kv.internal is Some && is_input_internal(kv.internal->0)
                    && !(kv.internal->0 == Internal::input_clear && v.content.len() == 0) {
                    (v1, KeyStepView::InputVerb(kv.internal->0))
                } else {
                    after_verb(v1, kv, letter, mode)
                },
                None => (v1, KeyStepView::ForInputField),
            }
        }
    }
}

fn is_input_internal_exec(internal: Internal) -> (res: bool)
    ensures
        res == is_input_internal(internal),
{
    match internal {
        Internal::input_clear | Internal::input_del_char_left | Internal::input_del_char_below
        | Internal::input_del_word_left | Internal::input_del_word_right | Internal::input_go_left
        | Internal::input_go_right | Internal::input_go_word_left | Internal::input_go_word_right
        | Internal::input_go_to_start | Internal::input_go_to_end | Internal::input_selection_cut
        | Internal::input_selection_copy | Internal::input_paste => true,
        _ => false,
    }
}

fn verb_is_exec(verb: Option<KeyVerb>, internal: Internal) -> (res: bool)
    ensures
        res == verb_is(verb, internal),
{
    match verb {
        Some(v) => match v.internal {
            Some(i) => i == internal,
            None => false,
        },
        None => false,
    }
}

impl PanelInput {
    /// What's done with a key once the verb it triggers couldn't act on the
    /// input field (see `key_step`).
    pub fn after_key_verb(&mut self, verb: KeyVerb, letter: Option<char>, mode: Mode) -> (step: KeyStep)
        ensures
            (final(self)@, step@) == after_verb(old(self)@, verb, letter, mode),
    {
        let parts = CommandParts::from(self.content.as_str());
        if mode != Mode::Input && verb.internal == Some(Internal::mode_input) && parts.verb_invocation.is_none() {
            if let Some(c) = letter {
                if c == ' ' || c == ':' {
                    string_push(&mut self.content, c);
                }
            }
        }
        if verb.auto_exec {
            KeyStep::Command(Command::VerbTrigger { verb_id: verb.verb_id, input_invocation: parts.verb_invocation })
        } else if verb.has_invocation_pattern {
            KeyStep::EditInvocation
        } else {
            KeyStep::ForInputField
        }
    }

    /// Consume a key, given the verb it triggers (if any), and tell what's
    /// to be done.
    pub fn on_key(
        &mut self,
        key: KeyKind,
        letter: Option<char>,
        verb: Option<KeyVerb>,
        mode: Mode,
        modal: bool,
    ) -> (step: KeyStep)
        ensures
            (final(self)@, step@) == key_step(old(self)@, key, letter, verb, mode, modal),
    {
        let parts = CommandParts::from(self.content.as_str());
        if verb_is_exec(verb, Internal::escape) {
            return KeyStep::Command(self.escape(modal, mode));
        }
        if verb_is_exec(verb, Internal::next_match) {
            if parts.verb_invocation.is_some() {
                return KeyStep::Complete;
            }
        } else {
            self.tab_cycle_count = 0;
            self.input_before_cycle = None;
        }
        if key == KeyKind::Enter && parts.has_not_empty_verb_invocation() {
            return KeyStep::Command(Command::from_parts(parts, true));
        }
        if key == KeyKind::QuestionMark && (self.content.as_str().is_empty() || parts.verb_invocation.is_some()) {
            return KeyStep::Command(Command::Internal { internal: Internal::help, input_invocation: parts.verb_invocation });
        }
        match verb {
            Some(kv) => {
                if let Some(i) = kv.internal {
                    if is_input_internal_exec(i) && !(i == Internal::input_clear && self.content.as_str().is_empty()) {
                        return KeyStep::InputVerb(i);
                    }
                }
                self.after_key_verb(kv, letter, mode)
            }
            None => KeyStep::ForInputField,
        }
    }
}

/// Escaping while cycling among completions gives back the input as it
/// was before the first completion of the cycle.
pub proof fn lemma_escape_cancels_cycle(v: PanelInputView, list: Seq<Seq<char>>, modal: bool, mode: Mode)
    requires
        v.tab_cycle_count == 0,
        list.len() > 0,
    ensures
        escaped(completed(v, CompletionsView::List(list)).0, modal, mode).0.content == v.content,
        escaped(completed(v, CompletionsView::List(list)).0, modal, mode).1 == command_from_raw(v.content, false),
{
}

} // verus!
