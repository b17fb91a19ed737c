//! State of the terminal interface: the prompt editor, prompt history,
//! the message stream, slash commands and the reaction to agent events.
//! Drawing and the terminal itself are the caller's.
use vstd::prelude::*;
use vstd::string::StringExecFns;
use crate::text::{self, chars_of, push_decimal, string_of, trim_chars, append_chars, to_lowercase};
use crate::agent::AgentEvent;
use crate::skills;

verus! {

/// The kind of a stream message.
#[derive(Debug)]
pub enum TuiMessageKind {
    User,
    Assistant,
    ToolCall { name: String, args: String },
    ToolResult { name: String, duration_ms: u128 },
    System,
    Error,
}

/// A message of the execution stream.
#[derive(Debug)]
pub struct TuiMessage {
    pub kind: TuiMessageKind,
    pub content: String,
}

pub enum KindView {
    User,
    Assistant,
    ToolCall { name: Seq<char>, args: Seq<char> },
    ToolResult { name: Seq<char>, duration_ms: u128 },
    System,
    Error,
}

pub struct TuiMessageView {
    pub kind: KindView,
    pub content: Seq<char>,
}

impl View for TuiMessage {
    type V = TuiMessageView;

    open spec fn view(&self) -> TuiMessageView {
        TuiMessageView {
            kind: match self.kind {
                TuiMessageKind::User => KindView::User,
                TuiMessageKind::Assistant => KindView::Assistant,
                TuiMessageKind::ToolCall { name, args } => KindView::ToolCall { name: name@, args: args@ },
                TuiMessageKind::ToolResult { name, duration_ms } => KindView::ToolResult { name: name@, duration_ms },
                TuiMessageKind::System => KindView::System,
                TuiMessageKind::Error => KindView::Error,
            },
            content: self.content@,
        }
    }
}

/// A system message.
pub open spec fn system_msg(content: Seq<char>) -> TuiMessageView {
    TuiMessageView { kind: KindView::System, content }
}

fn system_message(content: String) -> (m: TuiMessage)
    ensures
        m@ == system_msg(content@),
{
    TuiMessage { kind: TuiMessageKind::System, content }
}

/// A key press, as the interface reads it.
#[derive(Debug, Clone, Copy, PartialEq, Eq)]
pub enum Key {
    Char(char),
    Esc,
    Tab,
    PageUp,
    PageDown,
    Up,
    Down,
    Home,
    End,
    Delete,
    Backspace,
    Left,
    Right,
    Enter,
    Other,
}

/// A key press with whether Control was held.
#[derive(Debug, Clone, Copy, PartialEq, Eq)]
pub struct KeyInput {
    pub key: Key,
    pub ctrl: bool,
}

/// The interface state.
pub struct App {
    /// The workspace as it is displayed.
    pub workspace: String,
    /// The prompt being edited, one element per character.
    pub input: Vec<char>,
    pub cursor_pos: usize,
    pub messages: Vec<TuiMessage>,
    pub active_model: String,
    pub is_running: bool,
    pub scroll: usize,
    pub sidebar_tab: usize,
    pub token_count: usize,
    pub git_branch: String,
    pub should_quit: bool,
    pub status_text: String,
    pub prompt_history: Vec<String>,
    pub history_idx: Option<usize>,
    pub saved_draft: Vec<char>,
}

#[verifier::ext_equal]
pub struct AppView {
    pub workspace: Seq<char>,
    pub input: Seq<char>,
    pub cursor_pos: nat,
    pub messages: Seq<TuiMessageView>,
    pub active_model: Seq<char>,
    pub is_running: bool,
    pub scroll: nat,
    pub sidebar_tab: nat,
    pub token_count: nat,
    pub git_branch: Seq<char>,
    pub should_quit: bool,
    pub status_text: Seq<char>,
    pub prompt_history: Seq<Seq<char>>,
    pub history_idx: Option<nat>,
    pub saved_draft: Seq<char>,
}

impl View for App {
    type V = AppView;

    open spec fn view(&self) -> AppView {
        AppView {
            workspace: self.workspace@,
            input: self.input@,
            cursor_pos: self.cursor_pos as nat,
            messages: self.messages@.map_values(|m: TuiMessage| m@),
            active_model: self.active_model@,
            is_running: self.is_running,
            scroll: self.scroll as nat,
            sidebar_tab: self.sidebar_tab as nat,
            token_count: self.token_count as nat,
            git_branch: self.git_branch@,
            should_quit: self.should_quit,
            status_text: self.status_text@,
            prompt_history: self.prompt_history@.map_values(|s: String| s@),
            history_idx: match self.history_idx {
                Some(i) => Some(i as nat),
                None => None,
            },
            saved_draft: self.saved_draft@,
        }
    }
}

/// The cursor stays within the prompt, the browsed history entry exists
/// and the sidebar tab is one of the three panels.
pub open spec fn app_wf(a: AppView) -> bool {
    &&& a.cursor_pos <= a.input.len()
    &&& a.sidebar_tab < 3
    &&& a.history_idx matches Some(i) ==> i < a.prompt_history.len()
}

/// The branch label shown in the header: the current branch with a `*`,
/// or `main*` when git gives none. `branch_output` is the standard output
/// of `git branch --show-current` when that command succeeded.
pub open spec fn branch_label_spec(branch_output: Option<Seq<char>>) -> Seq<char> {
    match branch_output {
        Some(o) => if text::trim(o).len() > 0 {
            text::trim(o) + "*"@
        } else {
            "main*"@
        },
        None => "main*"@,
    }
}

/// The branch label for the header.
pub fn branch_label(branch_output: Option<&str>) -> (s: String)
    ensures
        s@ == branch_label_spec(match branch_output {
            Some(o) => Some(o@),
            None => None,
        }),
{
    match branch_output {
        Some(o) => {
            let t = trim_chars(chars_of(o).as_slice());
            if t.len() > 0 {
                let mut s = string_of(t.as_slice());
                s.append("*");
                s
            } else {
                String::from_str("main*")
            }
        },
        None => String::from_str("main*"),
    }
}

/// The greeting shown when the interface opens.
pub open spec fn welcome_text() -> Seq<char> {
    "APEX // HIGH-PERFORMANCE CODING ENGINE ONLINE. Type /help for slash commands."@
}

impl App {
    /// The state of a freshly opened interface.
    pub fn new(workspace: String, primary_model: String, git_branch: String) -> (app: App)
        ensures
            app@ == (AppView {
                workspace: workspace@,
                input: Seq::empty(),
                cursor_pos: 0,
                messages: seq![system_msg(welcome_text())],
                active_model: primary_model@,
                is_running: false,
                scroll: 0,
                sidebar_tab: 0,
                token_count: 0,
                git_branch: git_branch@,
                should_quit: false,
                status_text: "NORMAL // READY"@,
                prompt_history: Seq::empty(),
                history_idx: None,
                saved_draft: Seq::empty(),
            }),
            app_wf(app@),
    {
        let mut messages: Vec<TuiMessage> = Vec::new();
        messages.push(system_message(String::from_str(
            "APEX // HIGH-PERFORMANCE CODING ENGINE ONLINE. Type /help for slash commands.",
        )));
        let app = App {
            workspace,
            input: Vec::new(),
            cursor_pos: 0,
            messages,
            active_model: primary_model,
            is_running: false,
            scroll: 0,
            sidebar_tab: 0,
            token_count: 0,
            git_branch,
            should_quit: false,
            status_text: String::from_str("NORMAL // READY"),
            prompt_history: Vec::new(),
            history_idx: None,
            saved_draft: Vec::new(),
        };
        assert(app@.messages =~= seq![system_msg(welcome_text())]);
        assert(app@.prompt_history =~= Seq::<Seq<char>>::empty());
        app
    }
}

// ---------------------------------------------------------------------------
// Prompt editing
// ---------------------------------------------------------------------------

/// Index of the last `c` in `s`, or `-1` (`str::rfind`).
pub open spec fn last_index_of(s: Seq<char>, c: char) -> int
    decreases s.len(),
{
    if s.len() == 0 {
        -1
    } else if s.last() == c {
        s.len() - 1
    } else {
        last_index_of(s.drop_last(), c)
    }
}

/// Ctrl+W: deletes the word before the cursor, together with the blanks
/// between it and the cursor.
pub open spec fn delete_word_spec(a: AppView) -> AppView {
    if a.cursor_pos == 0 || a.input.len() == 0 {
        a
    } else {
        let trimmed = text::trim_end(a.input.take(a.cursor_pos as int));
        let start = (last_index_of(trimmed, ' ') + 1) as nat;
        AppView {
            input: a.input.take(start as int) + a.input.skip(a.cursor_pos as int),
            cursor_pos: start,
            history_idx: None,
            ..a
        }
    }
}

/// The prompt replaced by history entry `n`, with the cursor at its end.
pub open spec fn recall(a: AppView, n: nat) -> AppView {
    AppView {
        history_idx: Some(n),
        input: a.prompt_history[n as int],
        cursor_pos: a.prompt_history[n as int].len(),
        ..a
    }
}

/// Up: steps back through the prompt history, keeping the draft when
/// browsing starts.
pub open spec fn history_prev_spec(a: AppView) -> AppView {
    if a.prompt_history.len() == 0 {
        a
    } else {
        match a.history_idx {
            None => recall(AppView { saved_draft: a.input, ..a }, (a.prompt_history.len() - 1) as nat),
            Some(i) => if i > 0 {
                recall(a, (i - 1) as nat)
            } else {
                a
            },
        }
    }
}

/// Down: steps forward through the prompt history and back to the draft.
pub open spec fn history_next_spec(a: AppView) -> AppView {
    match a.history_idx {
        Some(i) => if i + 1 < a.prompt_history.len() {
            recall(a, i + 1)
        } else {
            AppView { history_idx: None, input: a.saved_draft, cursor_pos: a.saved_draft.len(), ..a }
        },
        None => a,
    }
}

/// The reaction of the interface to a key press (Enter with a prompt to
/// submit is handled by `App::submit`).
pub open spec fn handle_key_spec(a: AppView, k: KeyInput) -> AppView {
    if k.ctrl && k.key == Key::Char('c') {
        AppView { should_quit: true, ..a }
    } else if k.ctrl && k.key == Key::Char('a') {
        AppView { cursor_pos: 0, ..a }
    } else if k.ctrl && k.key == Key::Char('e') {
        AppView { cursor_pos: a.input.len(), ..a }
    } else if k.ctrl && k.key == Key::Char('u') {
        AppView { input: Seq::empty(), cursor_pos: 0, ..a }
    } else if k.ctrl && k.key == Key::Char('w') {
        delete_word_spec(a)
    } else {
        match k.key {
            Key::Esc => if a.is_running {
                AppView { status_text: "INTERRUPTED"@, is_running: false, ..a }
            } else {
                AppView { should_quit: true, ..a }
            },
            Key::Tab => AppView { sidebar_tab: (a.sidebar_tab + 1) % 3, ..a },
            Key::PageUp => AppView { scroll: if a.scroll >= 6 { (a.scroll - 6) as nat } else { 0 }, ..a },
            Key::PageDown => AppView { scroll: a.scroll + 6, ..a },
            Key::Up => history_prev_spec(a),
            Key::Down => history_next_spec(a),
            Key::Home => AppView { cursor_pos: 0, ..a },
            Key::End => AppView { cursor_pos: a.input.len(), ..a },
            Key::Delete => if a.cursor_pos < a.input.len() {
                AppView { input: a.input.remove(a.cursor_pos as int), ..a }
            } else {
                a
            },
            Key::Char(c) => AppView {
                input: a.input.insert(a.cursor_pos as int, c),
                cursor_pos: a.cursor_pos + 1,
                history_idx: None,
                ..a
            },
            Key::Backspace => if a.cursor_pos > 0 && a.input.len() > 0 {
                AppView {
                    input: a.input.remove(a.cursor_pos - 1),
                    cursor_pos: (a.cursor_pos - 1) as nat,
                    history_idx: None,
                    ..a
                }
            } else {
                a
            },
            Key::Left => if a.cursor_pos > 0 {
                AppView { cursor_pos: (a.cursor_pos - 1) as nat, ..a }
            } else {
                a
            },
            Key::Right => if a.cursor_pos < a.input.len() {
                AppView { cursor_pos: a.cursor_pos + 1, ..a }
            } else {
                a
            },
            _ => a,
        }
    }
}

/// The key presses the interface accepts: the prompt has room for one
/// more character, and scrolling stays in range. The cursor counts
/// characters, so any character can be typed.
pub open spec fn key_allowed(a: AppView, k: KeyInput) -> bool {
    &&& k.key matches Key::Char(c) ==> a.input.len() < usize::MAX
    &&& k.key == Key::PageDown ==> a.scroll + 6 <= usize::MAX
}

pub proof fn lemma_last_index_of_bounds(s: Seq<char>, c: char)
    ensures
        -1 <= last_index_of(s, c) < s.len(),
        last_index_of(s, c) >= 0 ==> s[last_index_of(s, c)] == c,
        forall|j: int| last_index_of(s, c) < j < s.len() ==> s[j] != c,
    decreases s.len(),
{
    if s.len() > 0 && s.last() != c {
        lemma_last_index_of_bounds(s.drop_last(), c);
        assert forall|j: int| last_index_of(s, c) < j < s.len() implies s[j] != c by {
            if j < s.len() - 1 {
                assert(s.drop_last()[j] == s[j]);
            }
        }
    }
}

impl App {
    fn clone_history_entry(&self, n: usize) -> (v: Vec<char>)
        requires
            n < self.prompt_history@.len(),
        ensures
            v@ == self.prompt_history@[n as int]@,
    {
        chars_of(self.prompt_history[n].as_str())
    }

    /// Ctrl+W.
    pub fn delete_word_backward(&mut self)
        requires
            app_wf(old(self)@),
        ensures
            final(self)@ == delete_word_spec(old(self)@),
            app_wf(final(self)@),
    {
        if self.cursor_pos == 0 || self.input.len() == 0 {
            return;
        }
        let before = text::slice_range(self.input.as_slice(), 0, self.cursor_pos);
        let trimmed = text::trim_end_chars(before.as_slice());
        proof {
            lemma_last_index_of_bounds(trimmed@, ' ');
            text::lemma_ws_suffix_len_bound(before@);
        }
        let mut k = trimmed.len();
        assert(trimmed@.take(k as int) =~= trimmed@);
        while k > 0 && trimmed[k - 1] != ' '
            invariant
                k <= trimmed@.len(),
                last_index_of(trimmed@, ' ') == last_index_of(trimmed@.take(k as int), ' '),
            decreases k,
        {
            assert(trimmed@.take(k as int).drop_last() =~= trimmed@.take(k - 1));
            k = k - 1;
        }
        let word_start = k;
        let ghost old_app = self@;
        let tail = text::slice_from(self.input.as_slice(), self.cursor_pos);
        let mut input = text::slice_range(self.input.as_slice(), 0, word_start);
        let mut j: usize = 0;
        let ghost head = input@;
        while j < tail.len()
            invariant
                j <= tail@.len(),
                input@ == head + tail@.take(j as int),
            decreases tail@.len() - j,
        {
            input.push(tail[j]);
            j = j + 1;
            assert(input@ =~= head + tail@.take(j as int));
        }
        assert(tail@.take(tail@.len() as int) =~= tail@);
        self.input = input;
        self.cursor_pos = word_start;
        self.history_idx = None;
        assert(self@ =~= delete_word_spec(old_app));
    }

    /// Up arrow: the previous prompt of the history.
    pub fn history_prev(&mut self)
        requires
            app_wf(old(self)@),
        ensures
            final(self)@ == history_prev_spec(old(self)@),
            app_wf(final(self)@),
    {
        if self.prompt_history.len() == 0 {
            return;
        }
        let ghost a = self@;
        match self.history_idx {
            None => {
                self.saved_draft = self.input.clone();
                let n = self.prompt_history.len() - 1;
                self.history_idx = Some(n);
                self.input = self.clone_history_entry(n);
                self.cursor_pos = self.input.len();
                assert(self@ =~= history_prev_spec(a));
            },
            Some(i) => {
                if i > 0 {
                    let n = i - 1;
                    self.history_idx = Some(n);
                    self.input = self.clone_history_entry(n);
                    self.cursor_pos = self.input.len();
                    assert(self@ =~= history_prev_spec(a));
                }
            },
        }
    }

    /// Down arrow: the next prompt of the history, then the draft.
    pub fn history_next(&mut self)
        requires
            app_wf(old(self)@),
        ensures
            final(self)@ == history_next_spec(old(self)@),
            app_wf(final(self)@),
    {
        let ghost a = self@;
        assert(self.prompt_history@.len() == self@.prompt_history.len());
        match self.history_idx {
            Some(i) => {
                assert(self@.history_idx == Some(i as nat));
                let len = self.prompt_history.len();
                assert(i < len);
                if i + 1 < len {
                    let n = i + 1;
                    self.history_idx = Some(n);
                    self.input = self.clone_history_entry(n);
                    self.cursor_pos = self.input.len();
                    assert(self@ =~= history_next_spec(a));
                } else {
                    self.history_idx = None;
                    self.input = self.saved_draft.clone();
                    self.cursor_pos = self.input.len();
                    assert(self@ =~= history_next_spec(a));
                }
            },
            None => {},
        }
    }

    /// Handles a key press that is not the submission of a prompt.
    pub fn handle_key(&mut self, k: KeyInput)
        requires
            app_wf(old(self)@),
            key_allowed(old(self)@, k),
        ensures
            final(self)@ == handle_key_spec(old(self)@, k),
            app_wf(final(self)@),
    {
        let ghost a = self@;
        if k.ctrl {
            match k.key {
                Key::Char('c') => {
                    self.should_quit = true;
                    return;
                },
                Key::Char('a') => {
                    self.cursor_pos = 0;
                    return;
                },
                Key::Char('e') => {
                    self.cursor_pos = self.input.len();
                    return;
                },
                Key::Char('u') => {
                    self.input.clear();
                    self.cursor_pos = 0;
                    assert(self@ =~= handle_key_spec(a, k));
                    return;
                },
                Key::Char('w') => {
                    self.delete_word_backward();
                    return;
                },
                _ => {},
            }
        }
        match k.key {
            Key::Esc => {
                if self.is_running {
                    self.status_text = String::from_str("INTERRUPTED");
                    self.is_running = false;
                } else {
                    self.should_quit = true;
                }
            },
            Key::Tab => {
                self.sidebar_tab = (self.sidebar_tab + 1) % 3;
            },
            Key::PageUp => {
                self.scroll = if self.scroll >= 6 { self.scroll - 6 } else { 0 };
            },
            Key::PageDown => {
                self.scroll = self.scroll + 6;
            },
            Key::Up => {
                self.history_prev();
            },
            Key::Down => {
                self.history_next();
            },
            Key::Home => {
                self.cursor_pos = 0;
            },
            Key::End => {
                self.cursor_pos = self.input.len();
            },
            Key::Delete => {
                if self.cursor_pos < self.input.len() {
                    self.input.remove(self.cursor_pos);
                    assert(self@ =~= handle_key_spec(a, k));
                }
            },
            Key::Char(c) => {
                self.input.insert(self.cursor_pos, c);
                self.cursor_pos = self.cursor_pos + 1;
                self.history_idx = None;
                assert(self@ =~= handle_key_spec(a, k));
            },
            Key::Backspace => {
                if self.cursor_pos > 0 && self.input.len() > 0 {
                    self.cursor_pos = self.cursor_pos - 1;
                    self.input.remove(self.cursor_pos);
                    self.history_idx = None;
                    assert(self@ =~= handle_key_spec(a, k));
                }
            },
            Key::Left => {
                if self.cursor_pos > 0 {
                    self.cursor_pos = self.cursor_pos - 1;
                }
            },
            Key::Right => {
                if self.cursor_pos < self.input.len() {
                    self.cursor_pos = self.cursor_pos + 1;
                }
            },
            _ => {},
        }
    }
}

// ---------------------------------------------------------------------------
// Slash commands, agent events and prompt submission
// ---------------------------------------------------------------------------

/// The reference shown by `/help`.
pub open spec fn help_text() -> Seq<char> {
    "=== APEX SLASH COMMANDS & KEYBINDINGS ===\n\
     /help           - Show this help reference\n\
     /clear          - Clear conversation stream\n\
     /model <id>     - Switch active model on the fly\n\
     /diff           - Run and display current git diff\n\
     /status         - Display token telemetry & branch status\n\
     /quit           - Exit Apex\n\n\
     [KEYBINDINGS]\n\
     Enter           - Submit prompt\n\
     Tab             - Cycle sidebar panel\n\
     Up / Down       - Browse prompt history\n\
     PageUp / PageDn - Scroll activity stream\n\
     Home / End      - Jump to line start / end\n\
     Delete          - Delete character forward\n\
     Ctrl+W          - Delete word backward\n\
     Ctrl+U          - Clear line\n\
     Esc             - Cancel / Exit"@
}

/// The report shown by `/status`; `cost_text` is the estimated cost with
/// four decimals.
pub open spec fn status_report(a: AppView, cost_text: Seq<char>) -> Seq<char> {
    "Active Model:    "@ + a.active_model + "\nSession Tokens:  "@ + decimal_of(a.token_count)
        + "\nEstimated Cost:  $"@ + cost_text + "\nGit Branch:      "@ + a.git_branch
        + "\nWorkspace:       "@ + a.workspace
}

pub open spec fn decimal_of(n: nat) -> Seq<char> {
    text::decimal(n)
}

/// What a slash command led to.
#[derive(Debug, Clone, Copy, PartialEq, Eq)]
pub enum SlashOutcome {
    /// Not one of the interface's commands: the line goes to the agent.
    NotACommand,
    /// Done.
    Handled,
    /// `/diff`: the caller runs `git diff` and passes its text to
    /// `App::show_diff`.
    NeedsDiff,
}

/// `a` with a system message appended.
pub open spec fn with_system(a: AppView, content: Seq<char>) -> AppView {
    AppView { messages: a.messages.push(system_msg(content)), ..a }
}

/// The effect of the interface command `cmd` (already lowercased) with
/// its first argument `arg`, when there is one.
pub open spec fn slash_command_spec(a: AppView, cmd: Seq<char>, arg: Option<Seq<char>>, cost_text: Seq<char>) -> (AppView, SlashOutcome) {
    if cmd == "/help"@ {
        (with_system(a, help_text()), SlashOutcome::Handled)
    } else if cmd == "/skills"@ {
        (with_system(a, skills::summary_text(skills::builtin_skills_spec())), SlashOutcome::Handled)
    } else if cmd == "/clear"@ {
        (AppView {
            messages: seq![system_msg("Conversation history cleared."@)],
            scroll: 0,
            ..a
        }, SlashOutcome::Handled)
    } else if cmd == "/model"@ {
        match arg {
            Some(m) => (with_system(AppView { active_model: m, ..a }, "Active model switched to: "@ + m),
                SlashOutcome::Handled),
            None => (with_system(a, "Current active model: "@ + a.active_model
                + "\nUsage: /model <model_id> (e.g. /model deepseek/deepseek-r1:free)"@),
                SlashOutcome::Handled),
        }
    } else if cmd == "/diff"@ {
        (a, SlashOutcome::NeedsDiff)
    } else if cmd == "/status"@ {
        (with_system(a, status_report(a, cost_text)), SlashOutcome::Handled)
    } else if cmd == "/quit"@ || cmd == "/exit"@ {
        (AppView { should_quit: true, ..a }, SlashOutcome::Handled)
    } else {
        (a, SlashOutcome::NotACommand)
    }
}

/// The effect of a command line typed into the prompt: its first word,
/// lowercased, is the command and its second word the argument.
pub open spec fn slash_spec(a: AppView, line: Seq<char>, cost_text: Seq<char>) -> (AppView, SlashOutcome) {
    let parts = text::words(text::trim(line));
    if parts.len() == 0 {
        (a, SlashOutcome::NotACommand)
    } else {
        slash_command_spec(
            a,
            text::lowercase(parts[0]),
            if parts.len() > 1 { Some(parts[1]) } else { None },
            cost_text,
        )
    }
}

/// The stream messages of `a` after the event.
pub open spec fn append_event_spec(a: AppView, e: AgentEvent) -> AppView {
    match e {
        AgentEvent::ModelSelected(m) => AppView { active_model: m@, ..a },
        AgentEvent::AssistantMessage(t) => AppView {
            messages: a.messages.push(TuiMessageView { kind: KindView::Assistant, content: t@ }),
            ..a
        },
        AgentEvent::ToolExecuting { id, name, args } => AppView {
            messages: a.messages.push(TuiMessageView {
                kind: KindView::ToolCall { name: name@, args: args@ },
                content: "EXECUTING TOOL: "@ + args@,
            }),
            ..a
        },
        AgentEvent::ToolCompleted { id, name, output, duration_ms } => AppView {
            messages: a.messages.push(TuiMessageView {
                kind: KindView::ToolResult { name: name@, duration_ms },
                content: output@,
            }),
            ..a
        },
        AgentEvent::UsageUpdate { prompt_tokens, completion_tokens, session_tokens, free_tier } => AppView {
            token_count: session_tokens as nat,
            ..a
        },
        AgentEvent::Error(err) => AppView {
            messages: a.messages.push(TuiMessageView { kind: KindView::Error, content: err@ }),
            ..a
        },
        AgentEvent::StepDone => AppView {
            scroll: if a.messages.len() >= 6 { (a.messages.len() - 6) as nat } else { 0 },
            ..a
        },
    }
}

/// What pressing Enter led to.
#[derive(Debug)]
pub enum Submission {
    /// Nothing to submit (a blank prompt, or the agent is busy).
    Ignored,
    /// A slash command was handled.
    Handled,
    /// `/diff`: the caller runs `git diff` and passes its text to
    /// `App::show_diff`.
    NeedsDiff,
    /// The prompt goes to the agent.
    SendToAgent(String),
}

/// The state after the prompt `p` was taken out of the editor.
pub open spec fn taken(a: AppView, p: Seq<char>) -> AppView {
    AppView {
        input: Seq::empty(),
        cursor_pos: 0,
        prompt_history: a.prompt_history.push(p),
        history_idx: None,
        ..a
    }
}

/// The state once a prompt is handed to the agent.
pub open spec fn sent(a: AppView, p: Seq<char>) -> AppView {
    AppView {
        is_running: true,
        status_text: "AGENT RUNNING // THINKING"@,
        messages: a.messages.push(TuiMessageView { kind: KindView::User, content: p }),
        ..a
    }
}

/// Pressing Enter: a non-blank prompt is taken out of the editor and
/// recorded in the history; a slash command of the interface is handled,
/// anything else goes to the agent.
pub open spec fn submit_spec(a: AppView, cost_text: Seq<char>) -> AppView {
    let p = text::trim(a.input);
    if p.len() == 0 || a.is_running {
        a
    } else {
        let b = taken(a, p);
        if p[0] == '/' && slash_spec(b, p, cost_text).1 != SlashOutcome::NotACommand {
            slash_spec(b, p, cost_text).0
        } else {
            sent(b, p)
        }
    }
}

fn literal_eq(s: &String, lit: &str) -> (b: bool)
    ensures
        b == (s@ == lit@),
{
    let l = String::from_str(lit);
    *s == l
}

impl App {
    fn push_system(&mut self, content: String)
        ensures
            final(self)@ == with_system(old(self)@, content@),
    {
        let ghost a = self@;
        let ghost old_msgs = self.messages@;
        let m = system_message(content);
        self.messages.push(m);
        assert(self.messages@.map_values(|m: TuiMessage| m@) =~= old_msgs.map_values(|m: TuiMessage| m@).push(system_msg(content@)));
        assert(self@ =~= with_system(a, content@));
    }

    /// Handles a slash command line. `cost_text` is the estimated cost with
    /// four decimals, as `/status` shows it.
    pub fn handle_slash_command(&mut self, cmd_line: &str, cost_text: &str) -> (o: SlashOutcome)
        requires
            app_wf(old(self)@),
        ensures
            (final(self)@, o) == slash_spec(old(self)@, cmd_line@, cost_text@),
            app_wf(final(self)@),
    {
        let line = chars_of(cmd_line);
        let trimmed = trim_chars(line.as_slice());
        let parts = text::split_words(trimmed.as_slice());
        if parts.len() == 0 {
            return SlashOutcome::NotACommand;
        }
        let first = string_of(parts[0].as_slice());
        let cmd = to_lowercase(first.as_str());
        if parts.len() > 1 {
            let arg = string_of(parts[1].as_slice());
            self.apply_slash_command(cmd.as_str(), Some(arg.as_str()), cost_text)
        } else {
            self.apply_slash_command(cmd.as_str(), None, cost_text)
        }
    }

    /// Carries out the interface command `cmd`, already lowercased, with its
    /// first argument `arg`.
    pub fn apply_slash_command(&mut self, cmd: &str, arg: Option<&str>, cost_text: &str) -> (o: SlashOutcome)
        requires
            app_wf(old(self)@),
        ensures
            (final(self)@, o) == slash_command_spec(old(self)@, cmd@, match arg {
                Some(x) => Some(x@),
                None => None,
            }, cost_text@),
            app_wf(final(self)@),
    {
        let ghost a = self@;
        let cmd = String::from_str(cmd);
        if literal_eq(&cmd, "/help") {
            self.push_system(String::from_str(
                "=== APEX SLASH COMMANDS & KEYBINDINGS ===\n\
                 /help           - Show this help reference\n\
                 /clear          - Clear conversation stream\n\
                 /model <id>     - Switch active model on the fly\n\
                 /diff           - Run and display current git diff\n\
                 /status         - Display token telemetry & branch status\n\
                 /quit           - Exit Apex\n\n\
                 [KEYBINDINGS]\n\
                 Enter           - Submit prompt\n\
                 Tab             - Cycle sidebar panel\n\
                 Up / Down       - Browse prompt history\n\
                 PageUp / PageDn - Scroll activity stream\n\
                 Home / End      - Jump to line start / end\n\
                 Delete          - Delete character forward\n\
                 Ctrl+W          - Delete word backward\n\
                 Ctrl+U          - Clear line\n\
                 Esc             - Cancel / Exit",
            ));
            SlashOutcome::Handled
        } else if literal_eq(&cmd, "/skills") {
            self.push_system(skills::render_skills_summary());
            SlashOutcome::Handled
        } else if literal_eq(&cmd, "/clear") {
            self.messages.clear();
            self.messages.push(system_message(String::from_str("Conversation history cleared.")));
            self.scroll = 0;
            assert(self@ =~= slash_command_spec(a, cmd@, None, cost_text@).0);
            SlashOutcome::Handled
        } else if literal_eq(&cmd, "/model") {
            if let Some(m) = arg {
                let new_model = String::from_str(m);
                let mut msg = String::from_str("Active model switched to: ");
                msg.append(new_model.as_str());
                self.active_model = new_model;
                self.push_system(msg);
            } else {
                let mut msg = String::from_str("Current active model: ");
                msg.append(self.active_model.as_str());
                msg.append("\nUsage: /model <model_id> (e.g. /model deepseek/deepseek-r1:free)");
                self.push_system(msg);
            }
            SlashOutcome::Handled
        } else if literal_eq(&cmd, "/diff") {
            SlashOutcome::NeedsDiff
        } else if literal_eq(&cmd, "/status") {
            let mut msg = String::from_str("Active Model:    ");
            msg.append(self.active_model.as_str());
            msg.append("\nSession Tokens:  ");
            push_decimal(&mut msg, self.token_count as u128);
            msg.append("\nEstimated Cost:  $");
            msg.append(cost_text);
            msg.append("\nGit Branch:      ");
            msg.append(self.git_branch.as_str());
            msg.append("\nWorkspace:       ");
            msg.append(self.workspace.as_str());
            self.push_system(msg);
            SlashOutcome::Handled
        } else if literal_eq(&cmd, "/quit") || literal_eq(&cmd, "/exit") {
            self.should_quit = true;
            SlashOutcome::Handled
        } else {
            SlashOutcome::NotACommand
        }
    }

    /// Shows the text of `git diff` asked for by `/diff`.
    pub fn show_diff(&mut self, diff_output: &str)
        ensures
            final(self)@ == with_system(old(self)@, "=== CURRENT GIT DIFF ===\n"@ + diff_output@),
    {
        let mut msg = String::from_str("=== CURRENT GIT DIFF ===\n");
        msg.append(diff_output);
        self.push_system(msg);
    }

    /// Records an agent event in the stream.
    pub fn append_event(&mut self, event: AgentEvent)
        requires
            app_wf(old(self)@),
        ensures
            final(self)@ == append_event_spec(old(self)@, event),
            app_wf(final(self)@),
    {
        let ghost a = self@;
        let ghost ev = event;
        match event {
            AgentEvent::ModelSelected(m) => {
                self.active_model = m;
            },
            AgentEvent::AssistantMessage(text) => {
                self.messages.push(TuiMessage { kind: TuiMessageKind::Assistant, content: text });
            },
            AgentEvent::ToolExecuting { id: _, name, args } => {
                let mut content = String::from_str("EXECUTING TOOL: ");
                content.append(args.as_str());
                self.messages.push(TuiMessage { kind: TuiMessageKind::ToolCall { name, args }, content });
            },
            AgentEvent::ToolCompleted { id: _, name, output, duration_ms } => {
                self.messages.push(TuiMessage {
                    kind: TuiMessageKind::ToolResult { name, duration_ms },
                    content: output,
                });
            },
            AgentEvent::UsageUpdate { prompt_tokens: _, completion_tokens: _, session_tokens, free_tier: _ } => {
                self.token_count = session_tokens;
            },
            AgentEvent::Error(err) => {
                self.messages.push(TuiMessage { kind: TuiMessageKind::Error, content: err });
            },
            AgentEvent::StepDone => {
                let n = self.messages.len();
                self.scroll = if n >= 6 { n - 6 } else { 0 };
            },
        }
        assert(self@ =~= append_event_spec(a, ev));
    }

    /// An event arrived from the agent: it is recorded and the interface is
    /// ready again.
    pub fn absorb_agent_event(&mut self, event: AgentEvent)
        requires
            app_wf(old(self)@),
        ensures
            final(self)@ == (AppView {
                is_running: false,
                status_text: "NORMAL // READY"@,
                ..append_event_spec(old(self)@, event)
            }),
            app_wf(final(self)@),
    {
        self.append_event(event);
        self.is_running = false;
        self.status_text = String::from_str("NORMAL // READY");
    }

    /// Enter: submits the prompt. `cost_text` is the estimated cost with
    /// four decimals, for `/status`.
    pub fn submit(&mut self, cost_text: &str) -> (s: Submission)
        requires
            app_wf(old(self)@),
        ensures
            final(self)@ == submit_spec(old(self)@, cost_text@),
            app_wf(final(self)@),
            ({
                let p = text::trim(old(self)@.input);
                let b = taken(old(self)@, p);
                if p.len() == 0 || old(self)@.is_running {
                    s is Ignored
                } else if p[0] == '/' && slash_spec(b, p, cost_text@).1 == SlashOutcome::Handled {
                    s is Handled
                } else if p[0] == '/' && slash_spec(b, p, cost_text@).1 == SlashOutcome::NeedsDiff {
                    s is NeedsDiff
                } else {
                    s matches Submission::SendToAgent(q) && q@ == p
                }
            }),
    {
        let ghost a = self@;
        let trimmed = trim_chars(self.input.as_slice());
        if trimmed.len() == 0 || self.is_running {
            return Submission::Ignored;
        }
        let prompt = string_of(trimmed.as_slice());
        self.input.clear();
        self.cursor_pos = 0;
        self.prompt_history.push(string_of(trimmed.as_slice()));
        self.history_idx = None;
        assert(self@ =~= taken(a, trimmed@));
        if trimmed[0] == '/' {
            let outcome = self.handle_slash_command(prompt.as_str(), cost_text);
            match outcome {
                SlashOutcome::Handled => {
                    return Submission::Handled;
                },
                SlashOutcome::NeedsDiff => {
                    return Submission::NeedsDiff;
                },
                SlashOutcome::NotACommand => {},
            }
        }
        let ghost b = self@;
        self.is_running = true;
        self.status_text = String::from_str("AGENT RUNNING // THINKING");
        self.messages.push(TuiMessage { kind: TuiMessageKind::User, content: prompt.clone() });
        assert(self@ =~= sent(b, trimmed@));
        Submission::SendToAgent(prompt)
    }
}

/// `format!("Error running git diff: {}", err)`.
pub fn diff_failure_text(err: &str) -> (s: String)
    ensures
        s@ == "Error running git diff: "@ + err@,
{
    let mut s = String::from_str("Error running git diff: ");
    s.append(err);
    s
}

// ---------------------------------------------------------------------------
// Laws of the prompt editor
// ---------------------------------------------------------------------------

/// Every key press keeps the editor well formed.
pub proof fn lemma_keys_keep_wf(a: AppView, k: KeyInput)
    requires
        app_wf(a),
        key_allowed(a, k),
    ensures
        app_wf(handle_key_spec(a, k)),
{
    if k.ctrl && k.key == Key::Char('w') {
        if !(a.cursor_pos == 0 || a.input.len() == 0) {
            let trimmed = text::trim_end(a.input.take(a.cursor_pos as int));
            text::lemma_ws_suffix_len_bound(a.input.take(a.cursor_pos as int));
            lemma_last_index_of_bounds(trimmed, ' ');
        }
    }
}

/// Browsing back into the history and forward again gives back the draft
/// that was being typed, with the cursor at its end.
pub proof fn lemma_history_round_trip(a: AppView)
    requires
        app_wf(a),
        a.history_idx is None,
        a.prompt_history.len() > 0,
    ensures
        history_next_spec(history_prev_spec(a)).input == a.input,
        history_next_spec(history_prev_spec(a)).cursor_pos == a.input.len(),
        history_next_spec(history_prev_spec(a)).history_idx is None,
        history_next_spec(history_prev_spec(a)).prompt_history == a.prompt_history,
{
}

/// Pressing Up `k` times from the draft recalls the `k`-th most recent
/// prompt (or the oldest one once the history is exhausted).
pub proof fn lemma_history_prev_steps(a: AppView, k: nat)
    requires
        app_wf(a),
        a.history_idx is None,
        a.prompt_history.len() > 0,
        k >= 1,
    ensures
        ({
            let b = prev_times(a, k);
            let n = a.prompt_history.len();
            let idx = if k <= n { n - k } else { 0 };
            &&& b.history_idx == Some(idx as nat)
            &&& b.input == a.prompt_history[idx]
            &&& b.saved_draft == a.input
            &&& b.prompt_history == a.prompt_history
        }),
    decreases k,
{
    if k > 1 {
        lemma_history_prev_steps(a, (k - 1) as nat);
        assert(prev_times(a, k) == history_prev_spec(prev_times(a, (k - 1) as nat)));
    } else {
        assert(prev_times(a, 0) == a);
        assert(prev_times(a, 1) == history_prev_spec(a));
    }
}

/// A key press without Control.
pub open spec fn plain(k: Key) -> KeyInput {
    KeyInput { key: k, ctrl: false }
}

/// Typing a character and then pressing Backspace gives back the prompt
/// and the cursor position.
pub proof fn lemma_type_then_backspace(a: AppView, c: char)
    requires
        app_wf(a),
    ensures
        ({
            let b = handle_key_spec(handle_key_spec(a, plain(Key::Char(c))), plain(Key::Backspace));
            &&& b.input == a.input
            &&& b.cursor_pos == a.cursor_pos
            &&& b.history_idx is None
            &&& app_wf(b)
        }),
{
    let typed = handle_key_spec(a, plain(Key::Char(c)));
    assert(typed.input == a.input.insert(a.cursor_pos as int, c));
    assert(typed.input.remove(a.cursor_pos as int) =~= a.input);
}

/// Three presses of Tab come back to the same sidebar panel, and change
/// nothing else.
pub proof fn lemma_tab_cycles(a: AppView)
    requires
        app_wf(a),
    ensures
        handle_key_spec(handle_key_spec(handle_key_spec(a, plain(Key::Tab)), plain(Key::Tab)), plain(Key::Tab))
            == a,
{
    let b = handle_key_spec(handle_key_spec(handle_key_spec(a, plain(Key::Tab)), plain(Key::Tab)), plain(Key::Tab));
    assert(b =~= a);
}

/// Scrolling a page down and a page up comes back to the same place.
pub proof fn lemma_page_down_up(a: AppView)
    ensures
        handle_key_spec(handle_key_spec(a, plain(Key::PageDown)), plain(Key::PageUp)) == a,
{
    let b = handle_key_spec(handle_key_spec(a, plain(Key::PageDown)), plain(Key::PageUp));
    assert(b =~= a);
}

/// `k` presses of Up.
pub open spec fn prev_times(a: AppView, k: nat) -> AppView
    decreases k,
{
    if k == 0 {
        a
    } else {
        history_prev_spec(prev_times(a, (k - 1) as nat))
    }
}

} // verus!
