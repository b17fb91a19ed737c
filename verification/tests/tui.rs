use apex_code::agent::AgentEvent;
use apex_code::skills::render_skills_summary;
use apex_code::tui::{
    branch_label, diff_failure_text, App, Key, KeyInput, SlashOutcome, Submission, TuiMessageKind,
};

fn app() -> App {
    App::new("/work".to_string(), "primary-model".to_string(), "main*".to_string())
}

fn key(k: Key) -> KeyInput {
    KeyInput { key: k, ctrl: false }
}

fn ctrl(c: char) -> KeyInput {
    KeyInput { key: Key::Char(c), ctrl: true }
}

fn type_text(a: &mut App, s: &str) {
    for c in s.chars() {
        a.handle_key(key(Key::Char(c)));
    }
}

fn input(a: &App) -> String {
    a.input.iter().collect()
}

fn last_message(a: &App) -> &str {
    a.messages.last().unwrap().content.as_str()
}

#[test]
fn new_app_greets() {
    let a = app();
    assert_eq!(a.messages.len(), 1);
    assert!(matches!(a.messages[0].kind, TuiMessageKind::System));
    assert_eq!(
        a.messages[0].content,
        "APEX // HIGH-PERFORMANCE CODING ENGINE ONLINE. Type /help for slash commands."
    );
    assert_eq!(a.status_text, "NORMAL // READY");
    assert_eq!(a.active_model, "primary-model");
}

#[test]
fn branch_labels() {
    assert_eq!(branch_label(Some("feature/x\n")), "feature/x*");
    assert_eq!(branch_label(Some("  \n")), "main*");
    assert_eq!(branch_label(None), "main*");
}

#[test]
fn editing_keys() {
    let mut a = app();
    type_text(&mut a, "helo");
    a.handle_key(key(Key::Left));
    type_text(&mut a, "l");
    assert_eq!(input(&a), "hello");
    assert_eq!(a.cursor_pos, 4);
    a.handle_key(key(Key::End));
    assert_eq!(a.cursor_pos, 5);
    a.handle_key(key(Key::Backspace));
    assert_eq!(input(&a), "hell");
    a.handle_key(key(Key::Home));
    a.handle_key(key(Key::Delete));
    assert_eq!(input(&a), "ell");
    assert_eq!(a.cursor_pos, 0);
    a.handle_key(key(Key::Backspace));
    assert_eq!(input(&a), "ell");
    a.handle_key(key(Key::Right));
    a.handle_key(key(Key::Right));
    a.handle_key(key(Key::Right));
    a.handle_key(key(Key::Right));
    assert_eq!(a.cursor_pos, 3);
    a.handle_key(ctrl('a'));
    assert_eq!(a.cursor_pos, 0);
    a.handle_key(ctrl('e'));
    assert_eq!(a.cursor_pos, 3);
    a.handle_key(ctrl('u'));
    assert_eq!(input(&a), "");
    assert_eq!(a.cursor_pos, 0);
}

#[test]
fn ctrl_w_deletes_previous_word() {
    let mut a = app();
    type_text(&mut a, "cargo test  ");
    a.handle_key(ctrl('w'));
    assert_eq!(input(&a), "cargo ");
    assert_eq!(a.cursor_pos, 6);
    a.handle_key(ctrl('w'));
    assert_eq!(input(&a), "");
    a.handle_key(ctrl('w'));
    assert_eq!(input(&a), "");
}

#[test]
fn panel_scroll_and_quit_keys() {
    let mut a = app();
    a.handle_key(key(Key::Tab));
    a.handle_key(key(Key::Tab));
    a.handle_key(key(Key::Tab));
    assert_eq!(a.sidebar_tab, 0);
    a.handle_key(key(Key::PageDown));
    a.handle_key(key(Key::PageDown));
    assert_eq!(a.scroll, 12);
    a.handle_key(key(Key::PageUp));
    a.handle_key(key(Key::PageUp));
    a.handle_key(key(Key::PageUp));
    assert_eq!(a.scroll, 0);
    a.is_running = true;
    a.handle_key(key(Key::Esc));
    assert!(!a.is_running);
    assert_eq!(a.status_text, "INTERRUPTED");
    assert!(!a.should_quit);
    a.handle_key(key(Key::Esc));
    assert!(a.should_quit);
    let mut b = app();
    b.handle_key(ctrl('c'));
    assert!(b.should_quit);
}

#[test]
fn history_browsing_round_trip() {
    let mut a = app();
    a.prompt_history = vec!["first".to_string(), "second".to_string()];
    type_text(&mut a, "draft");
    a.handle_key(key(Key::Up));
    assert_eq!(input(&a), "second");
    assert_eq!(a.history_idx, Some(1));
    a.handle_key(key(Key::Up));
    assert_eq!(input(&a), "first");
    a.handle_key(key(Key::Up));
    assert_eq!(input(&a), "first");
    assert_eq!(a.history_idx, Some(0));
    a.handle_key(key(Key::Down));
    assert_eq!(input(&a), "second");
    a.handle_key(key(Key::Down));
    assert_eq!(input(&a), "draft");
    assert_eq!(a.history_idx, None);
    assert_eq!(a.cursor_pos, 5);
}

#[test]
fn slash_help_clear_model_status_quit() {
    let mut a = app();
    assert_eq!(a.handle_slash_command("/HELP", "0.0000"), SlashOutcome::Handled);
    assert!(last_message(&a).starts_with("=== APEX SLASH COMMANDS & KEYBINDINGS ===\n/help"));
    assert_eq!(a.handle_slash_command("/model", "0.0000"), SlashOutcome::Handled);
    assert_eq!(
        last_message(&a),
        "Current active model: primary-model\nUsage: /model <model_id> (e.g. /model deepseek/deepseek-r1:free)"
    );
    assert_eq!(a.handle_slash_command("  /model   other:free extra", "0.0000"), SlashOutcome::Handled);
    assert_eq!(a.active_model, "other:free");
    assert_eq!(last_message(&a), "Active model switched to: other:free");
    a.token_count = 1234;
    assert_eq!(a.handle_slash_command("/status", "0.0006"), SlashOutcome::Handled);
    assert_eq!(
        last_message(&a),
        "Active Model:    other:free\nSession Tokens:  1234\nEstimated Cost:  $0.0006\nGit Branch:      main*\nWorkspace:       /work"
    );
    a.scroll = 9;
    assert_eq!(a.handle_slash_command("/clear", ""), SlashOutcome::Handled);
    assert_eq!(a.messages.len(), 1);
    assert_eq!(last_message(&a), "Conversation history cleared.");
    assert_eq!(a.scroll, 0);
    assert_eq!(a.handle_slash_command("/diff", ""), SlashOutcome::NeedsDiff);
    a.show_diff("No unstaged git diffs found.");
    assert_eq!(last_message(&a), "=== CURRENT GIT DIFF ===\nNo unstaged git diffs found.");
    assert_eq!(a.handle_slash_command("/plan a feature", ""), SlashOutcome::NotACommand);
    assert_eq!(a.handle_slash_command("   ", ""), SlashOutcome::NotACommand);
    assert_eq!(a.handle_slash_command("/exit", ""), SlashOutcome::Handled);
    assert!(a.should_quit);
    let mut b = app();
    assert_eq!(b.handle_slash_command("/quit", ""), SlashOutcome::Handled);
    assert!(b.should_quit);
}

#[test]
fn submit_sends_or_handles() {
    let mut a = app();
    type_text(&mut a, "   ");
    assert!(matches!(a.submit(""), Submission::Ignored));
    a.handle_key(ctrl('u'));
    type_text(&mut a, "  refactor main  ");
    match a.submit("") {
        Submission::SendToAgent(p) => assert_eq!(p, "refactor main"),
        _ => panic!("expected the prompt to go to the agent"),
    }
    assert!(a.is_running);
    assert_eq!(a.status_text, "AGENT RUNNING // THINKING");
    assert_eq!(a.prompt_history, vec!["refactor main".to_string()]);
    assert!(matches!(a.messages.last().unwrap().kind, TuiMessageKind::User));
    assert!(a.input.is_empty());
    type_text(&mut a, "busy");
    assert!(matches!(a.submit(""), Submission::Ignored));
    a.is_running = false;
    a.handle_key(ctrl('u'));
    type_text(&mut a, "/diff");
    assert!(matches!(a.submit(""), Submission::NeedsDiff));
    type_text(&mut a, "/help");
    assert!(matches!(a.submit(""), Submission::Handled));
    assert!(!a.is_running);
    type_text(&mut a, "/plan login");
    match a.submit("") {
        Submission::SendToAgent(p) => assert_eq!(p, "/plan login"),
        _ => panic!("unknown slash commands go to the agent"),
    }
    assert_eq!(a.prompt_history.len(), 4);
}

#[test]
fn agent_events_update_the_stream() {
    let mut a = app();
    a.append_event(AgentEvent::ModelSelected("m2".to_string()));
    assert_eq!(a.active_model, "m2");
    a.append_event(AgentEvent::AssistantMessage("thinking".to_string()));
    assert!(matches!(a.messages.last().unwrap().kind, TuiMessageKind::Assistant));
    a.append_event(AgentEvent::ToolExecuting {
        id: "1".to_string(),
        name: "ripgrep".to_string(),
        args: "{\"pattern\":\"x\"}".to_string(),
    });
    assert_eq!(last_message(&a), "EXECUTING TOOL: {\"pattern\":\"x\"}");
    a.append_event(AgentEvent::ToolCompleted {
        id: "1".to_string(),
        name: "ripgrep".to_string(),
        output: "a.rs:1: x".to_string(),
        duration_ms: 3,
    });
    assert!(matches!(a.messages.last().unwrap().kind, TuiMessageKind::ToolResult { duration_ms: 3, .. }));
    a.append_event(AgentEvent::UsageUpdate { prompt_tokens: 1, completion_tokens: 2, session_tokens: 3, free_tier: true });
    assert_eq!(a.token_count, 3);
    a.append_event(AgentEvent::Error("bad".to_string()));
    assert!(matches!(a.messages.last().unwrap().kind, TuiMessageKind::Error));
    a.append_event(AgentEvent::AssistantMessage("more".to_string()));
    a.append_event(AgentEvent::AssistantMessage("more".to_string()));
    assert_eq!(a.messages.len(), 7);
    a.append_event(AgentEvent::StepDone);
    assert_eq!(a.scroll, 1);
    a.is_running = true;
    a.absorb_agent_event(AgentEvent::StepDone);
    assert!(!a.is_running);
    assert_eq!(a.status_text, "NORMAL // READY");
}

#[test]
fn diff_failure_message() {
    assert_eq!(diff_failure_text("no git"), "Error running git diff: no git");
}

#[test]
fn typing_then_backspace_restores_prompt() {
    let mut a = app();
    type_text(&mut a, "cargo tst");
    a.handle_key(key(Key::Left));
    a.handle_key(key(Key::Left));
    a.handle_key(key(Key::Char('x')));
    assert_eq!(input(&a), "cargo txst");
    a.handle_key(key(Key::Backspace));
    assert_eq!(input(&a), "cargo tst");
    assert_eq!(a.cursor_pos, 7);
    assert_eq!(a.history_idx, None);
}

#[test]
fn page_down_then_up_returns() {
    let mut a = app();
    a.scroll = 3;
    a.handle_key(key(Key::PageDown));
    a.handle_key(key(Key::PageUp));
    assert_eq!(a.scroll, 3);
}

#[test]
fn slash_skills_lists_the_playbooks() {
    let mut a = app();
    assert_eq!(a.handle_slash_command("/skills", ""), SlashOutcome::Handled);
    assert!(matches!(a.messages.last().unwrap().kind, TuiMessageKind::System));
    assert_eq!(last_message(&a), render_skills_summary());
    assert_eq!(a.messages.len(), 2);
}

#[test]
fn wide_characters_are_edited_by_character() {
    let mut a = app();
    type_text(&mut a, "héllo wörld");
    assert_eq!(a.cursor_pos, 11);
    a.handle_key(key(Key::Backspace));
    a.handle_key(key(Key::Left));
    a.handle_key(key(Key::Char('ü')));
    assert_eq!(input(&a), "héllo wörül");
    a.handle_key(ctrl('w'));
    assert_eq!(input(&a), "héllo l");
}
