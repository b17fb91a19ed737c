use apex_code::tools::{
    file_exists_message, file_not_found_message, format_command_output, get_tool_definitions,
    git_diff_command, git_status_command, interpret_git_diff, parse_tool_args, plan_tool_call,
    plan_tool_call_json, render_file_view,
    timeout_message, write_allowed, write_success_message, ArgValue, ToolArgs, ToolRequest,
};

fn args(fields: Vec<(&str, ArgValue)>) -> ToolArgs {
    ToolArgs { fields: fields.into_iter().map(|(k, v)| (k.to_string(), v)).collect() }
}

fn s(v: &str) -> ArgValue {
    ArgValue::Str(v.to_string())
}

#[test]
fn eight_tools_are_offered() {
    let defs = get_tool_definitions();
    let names: Vec<&str> = defs.iter().map(|d| d.name).collect();
    assert_eq!(
        names,
        vec!["ripgrep", "find_files", "view_file", "write_file", "edit_file", "run_command", "git_status", "git_diff"]
    );
}

#[test]
fn ripgrep_call_defaults() {
    match plan_tool_call("ripgrep", &args(vec![("pattern", s("fn main"))])).unwrap() {
        ToolRequest::Ripgrep { pattern, path, case_insensitive } => {
            assert_eq!(pattern, "fn main");
            assert_eq!(path, None);
            assert!(!case_insensitive);
        }
        r => panic!("unexpected {:?}", r),
    }
    let a = args(vec![("path", s("src")), ("case_insensitive", ArgValue::Bool(true)), ("pattern", ArgValue::UInt(3))]);
    match plan_tool_call("ripgrep", &a).unwrap() {
        ToolRequest::Ripgrep { pattern, path, case_insensitive } => {
            assert_eq!(pattern, "");
            assert_eq!(path.as_deref(), Some("src"));
            assert!(case_insensitive);
        }
        r => panic!("unexpected {:?}", r),
    }
}

#[test]
fn view_and_write_call_defaults() {
    let a = args(vec![("path", s("a.rs")), ("start_line", ArgValue::UInt(3)), ("end_line", ArgValue::Other)]);
    match plan_tool_call("view_file", &a).unwrap() {
        ToolRequest::ViewFile { path, start_line, end_line } => {
            assert_eq!(path, "a.rs");
            assert_eq!(start_line, Some(3));
            assert_eq!(end_line, None);
        }
        r => panic!("unexpected {:?}", r),
    }
    match plan_tool_call("write_file", &args(vec![("path", s("b")), ("content", s("x"))])).unwrap() {
        ToolRequest::WriteFile { path, content, overwrite } => {
            assert_eq!((path.as_str(), content.as_str(), overwrite), ("b", "x", false));
        }
        r => panic!("unexpected {:?}", r),
    }
    match plan_tool_call("write_file", &args(vec![("overwrite", ArgValue::Bool(true))])).unwrap() {
        ToolRequest::WriteFile { path, content, overwrite } => {
            assert_eq!((path.as_str(), content.as_str(), overwrite), ("", "", true));
        }
        r => panic!("unexpected {:?}", r),
    }
}

#[test]
fn edit_command_and_git_calls() {
    let a = args(vec![("path", s("f")), ("target_content", s("old")), ("replacement_content", s("new"))]);
    match plan_tool_call("edit_file", &a).unwrap() {
        ToolRequest::EditFile { path, target, replacement } => {
            assert_eq!((path.as_str(), target.as_str(), replacement.as_str()), ("f", "old", "new"));
        }
        r => panic!("unexpected {:?}", r),
    }
    match plan_tool_call("run_command", &args(vec![("command", s("ls"))])).unwrap() {
        ToolRequest::RunCommand { command, timeout_seconds } => {
            assert_eq!(command, "ls");
            assert_eq!(timeout_seconds, 30);
        }
        r => panic!("unexpected {:?}", r),
    }
    match plan_tool_call("run_command", &args(vec![("command", s("ls")), ("timeout_seconds", ArgValue::UInt(5))])).unwrap() {
        ToolRequest::RunCommand { timeout_seconds, .. } => assert_eq!(timeout_seconds, 5),
        r => panic!("unexpected {:?}", r),
    }
    assert!(matches!(plan_tool_call("git_status", &args(vec![])).unwrap(), ToolRequest::GitStatus));
    match plan_tool_call("git_diff", &args(vec![("path", s("x.rs"))])).unwrap() {
        ToolRequest::GitDiff { path } => assert_eq!(path.as_deref(), Some("x.rs")),
        r => panic!("unexpected {:?}", r),
    }
    match plan_tool_call("find_files", &args(vec![("query", s(".rs"))])).unwrap() {
        ToolRequest::FindFiles { query } => assert_eq!(query, ".rs"),
        r => panic!("unexpected {:?}", r),
    }
}

#[test]
fn first_field_wins() {
    let a = args(vec![("command", s("first")), ("command", s("second"))]);
    match plan_tool_call("run_command", &a).unwrap() {
        ToolRequest::RunCommand { command, .. } => assert_eq!(command, "first"),
        r => panic!("unexpected {:?}", r),
    }
}

#[test]
fn unknown_tool_is_refused() {
    let e = plan_tool_call("delete_everything", &args(vec![])).unwrap_err();
    assert_eq!(e.message(), "Unknown tool: delete_everything");
}

#[test]
fn file_view_windows() {
    let content = "one\ntwo\nthree\nfour\n";
    assert_eq!(
        render_file_view("f.txt", content, None, None),
        "--- f.txt (Lines 1-4 of 4) ---\n   1 | one\n   2 | two\n   3 | three\n   4 | four"
    );
    assert_eq!(
        render_file_view("f.txt", content, Some(2), Some(3)),
        "--- f.txt (Lines 2-3 of 4) ---\n   2 | two\n   3 | three"
    );
    assert_eq!(
        render_file_view("f.txt", content, Some(0), Some(99)),
        "--- f.txt (Lines 1-4 of 4) ---\n   1 | one\n   2 | two\n   3 | three\n   4 | four"
    );
    assert_eq!(
        render_file_view("f.txt", content, Some(9), None),
        "File f.txt has 4 lines. Requested start line 9 is out of range."
    );
    assert_eq!(render_file_view("f.txt", content, Some(3), Some(1)), "--- f.txt (Lines 3-1 of 4) ---");
    assert_eq!(
        render_file_view("e", "", None, None),
        "File e has 0 lines. Requested start line 1 is out of range."
    );
    assert_eq!(
        render_file_view("w", "a\r\nb", None, None),
        "--- w (Lines 1-2 of 2) ---\n   1 | a\n   2 | b"
    );
}

#[test]
fn wide_line_numbers() {
    let content: String = (1..=10000).map(|i| format!("l{}\n", i)).collect();
    let out = render_file_view("big", &content, Some(9999), None);
    assert_eq!(out, "--- big (Lines 9999-10000 of 10000) ---\n9999 | l9999\n10000 | l10000");
}

#[test]
fn write_rules_and_messages() {
    assert!(write_allowed(false, false));
    assert!(write_allowed(true, true));
    assert!(!write_allowed(true, false));
    assert_eq!(file_not_found_message("a"), "File not found: a");
    assert_eq!(file_exists_message("a"), "File already exists: a. Pass overwrite=true to replace.");
    assert_eq!(write_success_message("a", "héllo"), "Successfully wrote a (6 bytes)");
}

#[test]
fn git_commands_and_diff_reports() {
    assert_eq!(git_status_command(), "git status --short --branch");
    assert_eq!(git_diff_command(None), "git diff");
    assert_eq!(git_diff_command(Some("src/a.rs")), "git diff -- src/a.rs");
    assert_eq!(interpret_git_diff("Exit Code: 0"), "Exit Code: 0");
    assert_eq!(interpret_git_diff("Exit Code: 0\n"), "No unstaged git diffs found.");
    assert_eq!(interpret_git_diff("Exit Code: 0\n--- STDERR ---\nwarn"), "No unstaged git diffs found.");
    assert_eq!(interpret_git_diff("  "), "No unstaged git diffs found.");
    let with_diff = "Exit Code: 0\n--- STDOUT ---\ndiff --git a b";
    assert_eq!(interpret_git_diff(with_diff), with_diff);
}

#[test]
fn command_reports() {
    assert_eq!(format_command_output(Some(0), "", ""), "Exit Code: 0");
    assert_eq!(
        format_command_output(Some(1), "out\n", "err\n"),
        "Exit Code: 1\n--- STDOUT ---\nout\n\n--- STDERR ---\nerr\n"
    );
    assert_eq!(format_command_output(None, "  ", "oops"), "Exit Code: -1\n--- STDERR ---\noops");
    let long = "x".repeat(10005);
    let r = format_command_output(Some(0), &long, "");
    let expected = format!("Exit Code: 0\n--- STDOUT ---\n{}...\n(Output truncated at 10000 chars)", "x".repeat(10000));
    assert_eq!(r, expected);
    assert_eq!(timeout_message(30, "sleep 99"), "Command timed out after 30 seconds: sleep 99");
}

#[test]
fn write_without_overwrite_refuses_existing_files() {
    match plan_tool_call_json("write_file", r#"{"path":"a.txt","content":"new"}"#).unwrap() {
        ToolRequest::WriteFile { path, content, overwrite } => {
            assert_eq!((path.as_str(), content.as_str(), overwrite), ("a.txt", "new", false));
            assert!(!write_allowed(true, overwrite));
            assert_eq!(
                file_exists_message(&path),
                "File already exists: a.txt. Pass overwrite=true to replace."
            );
        }
        r => panic!("unexpected {:?}", r),
    }
}

#[test]
fn json_arguments_are_read() {
    let a = r#"{"path":"src/x.rs","start_line":3,"end_line":-1}"#;
    match plan_tool_call_json("view_file", a).unwrap() {
        ToolRequest::ViewFile { path, start_line, end_line } => {
            assert_eq!(path, "src/x.rs");
            assert_eq!(start_line, Some(3));
            assert_eq!(end_line, None);
        }
        r => panic!("unexpected {:?}", r),
    }
    match plan_tool_call_json("run_command", r#"{"command":"ls","timeout_seconds":2.5}"#).unwrap() {
        ToolRequest::RunCommand { command, timeout_seconds } => {
            assert_eq!(command, "ls");
            assert_eq!(timeout_seconds, 30);
        }
        r => panic!("unexpected {:?}", r),
    }
    match plan_tool_call_json("ripgrep", r#"{"pattern":"x","case_insensitive":true}"#).unwrap() {
        ToolRequest::Ripgrep { case_insensitive, .. } => assert!(case_insensitive),
        r => panic!("unexpected {:?}", r),
    }
}

#[test]
fn malformed_json_arguments_count_as_none() {
    assert!(parse_tool_args("not json").is_none());
    assert!(parse_tool_args("[1, 2]").is_none());
    assert_eq!(parse_tool_args("{}").unwrap().fields.len(), 0);
    match plan_tool_call_json("find_files", "{oops").unwrap() {
        ToolRequest::FindFiles { query } => assert_eq!(query, ""),
        r => panic!("unexpected {:?}", r),
    }
    let e = plan_tool_call_json("nope", "{}").unwrap_err();
    assert_eq!(e.message(), "Unknown tool: nope");
}
