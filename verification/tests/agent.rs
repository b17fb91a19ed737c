use apex_code::agent::{
    is_free_model, project_context, system_prompt, tool_error_output, AgentEvent, AgentEngine,
    ChatMessage, Role, StepOutcome,
};
use apex_code::provider::{ChatReply, FunctionCall, ToolCall};
use apex_code::skills::ProjectMarkers;

fn markers() -> ProjectMarkers {
    ProjectMarkers {
        cargo_toml: false,
        package_json: false,
        pnpm_lock: false,
        yarn_lock: false,
        pytest_ini: false,
        pyproject_toml: false,
        requirements_txt: false,
        go_mod: false,
    }
}

fn call(id: &str, name: &str, args: &str) -> ToolCall {
    ToolCall {
        id: id.to_string(),
        call_type: "function".to_string(),
        function: FunctionCall { name: name.to_string(), arguments: args.to_string() },
    }
}

#[test]
fn project_context_lines() {
    let mut m = markers();
    assert_eq!(project_context(&m, None), "");
    m.cargo_toml = true;
    m.package_json = true;
    assert_eq!(project_context(&m, None), "Project Type: Rust (Cargo)");
    assert_eq!(
        project_context(&m, Some("  ## main\n M src/lib.rs\n")),
        "Project Type: Rust (Cargo)\nGit Workspace Status:\n## main\n M src/lib.rs"
    );
    let mut m = markers();
    m.requirements_txt = true;
    assert_eq!(project_context(&m, Some("   \n")), "Project Type: Python");
    let mut m = markers();
    m.go_mod = true;
    assert_eq!(project_context(&m, None), "Project Type: Go");
    assert_eq!(project_context(&markers(), Some("## dev")), "Git Workspace Status:\n## dev");
    let mut m = markers();
    m.package_json = true;
    assert_eq!(project_context(&m, None), "Project Type: Node.js / TypeScript");
}

#[test]
fn system_prompt_names_workspace_and_context() {
    let p = system_prompt("/work", "Project Type: Go");
    assert!(p.starts_with(
        "You are APEX, an elite, high-performance autonomous coding agent operating directly in the user's terminal.\nCurrent Workspace: /work\nProject Type: Go\n\nCORE OPERATING PRINCIPLES:\n1. Precision & Verification"
    ));
    assert!(p.ends_with("execute tools proactively, and report verified results."));
}

#[test]
fn free_models_and_tool_errors() {
    assert!(is_free_model("openrouter/deepseek/deepseek-r1:free"));
    assert!(!is_free_model("google/gemini-2.0-flash"));
    assert_eq!(tool_error_output("view_file", "File not found: x"), "Error executing tool 'view_file': File not found: x");
}

#[test]
fn session_records_a_run() {
    let mut s = AgentEngine::new(2, "SYS".to_string());
    assert_eq!(s.history.len(), 1);
    assert!(matches!(s.history[0].role, Role::System));
    assert!(s.begin_run("fix the bug"));
    assert_eq!(s.history.len(), 2);
    assert!(matches!(s.history[1].role, Role::User));
    assert_eq!(s.history[1].content.as_deref(), Some("fix the bug"));

    let reply = ChatReply {
        content: Some("Looking.".to_string()),
        tool_calls: Some(vec![call("c1", "git_status", "{}")]),
        prompt_tokens: 100,
        completion_tokens: 20,
    };
    let (events, outcome) = s.absorb_reply("m:free", reply);
    assert_eq!(s.session_tokens, 120);
    assert_eq!(events.len(), 3);
    match &events[0] {
        AgentEvent::UsageUpdate { prompt_tokens, completion_tokens, session_tokens, free_tier } => {
            assert_eq!((*prompt_tokens, *completion_tokens, *session_tokens, *free_tier), (100, 20, 120, true));
        }
        e => panic!("unexpected {:?}", e),
    }
    assert!(matches!(&events[1], AgentEvent::ModelSelected(m) if m == "m:free"));
    assert!(matches!(&events[2], AgentEvent::AssistantMessage(t) if t == "Looking."));
    let calls = match outcome {
        StepOutcome::RunTools(c) => c,
        StepOutcome::Finished => panic!("tools expected"),
    };
    assert_eq!(calls.len(), 1);
    let started = AgentEngine::tool_started(&calls[0]);
    assert!(matches!(started, AgentEvent::ToolExecuting { ref name, .. } if name == "git_status"));
    let done = s.tool_finished(&calls[0], "## main".to_string(), 7);
    assert!(matches!(done, AgentEvent::ToolCompleted { duration_ms: 7, .. }));
    assert_eq!(s.history.len(), 4);
    assert!(matches!(s.history[3].role, Role::Tool));
    assert_eq!(s.history[3].tool_call_id.as_deref(), Some("c1"));
    assert!(s.may_continue());

    let reply = ChatReply { content: Some("  ".to_string()), tool_calls: None, prompt_tokens: 1, completion_tokens: 1 };
    let (events, outcome) = s.absorb_reply("paid-model", reply);
    assert_eq!(events.len(), 2);
    assert!(matches!(events[0], AgentEvent::UsageUpdate { free_tier: false, session_tokens: 122, .. }));
    assert!(matches!(outcome, StepOutcome::Finished));
    assert!(!s.may_continue());
}

#[test]
fn empty_tool_call_list_finishes() {
    let mut s = AgentEngine::new(5, "SYS".to_string());
    s.begin_run("hi");
    let reply = ChatReply { content: None, tool_calls: Some(vec![]), prompt_tokens: 0, completion_tokens: 0 };
    let (events, outcome) = s.absorb_reply("m", reply);
    assert_eq!(events.len(), 2);
    assert!(matches!(outcome, StepOutcome::Finished));
}

#[test]
fn zero_steps_makes_no_request() {
    let mut s = AgentEngine::new(0, "SYS".to_string());
    assert!(!s.begin_run("task"));
}

#[test]
fn reset_history_keeps_system_prompt() {
    let mut s = AgentEngine::new(3, "SYS".to_string());
    s.begin_run("a");
    s.begin_run("b");
    assert_eq!(s.history.len(), 3);
    s.reset_history();
    assert_eq!(s.history.len(), 1);
    assert_eq!(s.history[0].content.as_deref(), Some("SYS"));
}

#[test]
fn message_constructors() {
    let m = ChatMessage::assistant(None, Some(vec![call("x", "y", "{}")]));
    assert!(matches!(m.role, Role::Assistant));
    assert_eq!(m.tool_calls.as_ref().map(|v| v.len()), Some(1));
    let t = ChatMessage::tool("out".to_string(), "id1".to_string());
    assert_eq!(t.tool_call_id.as_deref(), Some("id1"));
}

#[test]
fn failed_chat_stops_the_run_with_one_error() {
    let mut s = AgentEngine::new(4, "SYS".to_string());
    assert!(s.begin_run("task"));
    let events = s.chat_failed("All models in fallback pool failed. Last error: x");
    assert_eq!(events.len(), 1);
    assert!(matches!(&events[0], AgentEvent::Error(e) if e == "All models in fallback pool failed. Last error: x"));
    assert!(!s.may_continue());
    assert_eq!(s.history.len(), 2);
}
