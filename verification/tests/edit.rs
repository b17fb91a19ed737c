use apex_code::edit::{
    apply_edit, contains_crlf, count_matches, crlf_to_lf_chars, edit_success_message, find_first,
    lf_to_crlf_chars, EditError,
};

fn chars(s: &str) -> Vec<char> {
    s.chars().collect()
}

#[test]
fn edit_replaces_unique_block() {
    let out = apply_edit("fn a() {}\nfn b() {}\n", "fn b() {}", "fn c() {}").unwrap();
    assert_eq!(out, "fn a() {}\nfn c() {}\n");
}

#[test]
fn edit_reports_missing_target() {
    let r = apply_edit("hello world", "bye", "x");
    assert_eq!(r, Err(EditError::TargetNotFound));
    let msg = EditError::TargetNotFound.message("src/main.rs");
    assert_eq!(
        msg,
        "target_content not found in src/main.rs. Please verify line numbers and exact content."
    );
}

#[test]
fn edit_reports_ambiguous_target_with_count() {
    let r = apply_edit("x = 1;\nx = 1;\nx = 1;\n", "x = 1;", "x = 2;");
    assert_eq!(r, Err(EditError::TargetNotUnique { count: 3 }));
    let msg = EditError::TargetNotUnique { count: 3 }.message("a.rs");
    assert_eq!(
        msg,
        "target_content matched 3 times in a.rs. Please include more surrounding context to make it unique."
    );
}

#[test]
fn edit_counts_overlapping_matches() {
    // "aa" starts at three positions of "aaaa" and at two of "aaa".
    let r = apply_edit("aaaa", "aa", "b");
    assert_eq!(r, Err(EditError::TargetNotUnique { count: 3 }));
    assert_eq!(apply_edit("aaa", "aa", "b"), Err(EditError::TargetNotUnique { count: 2 }));
    assert_eq!(apply_edit("aab", "aa", "c").unwrap(), "cb");
}

#[test]
fn edit_empty_target_matches_every_boundary() {
    assert_eq!(apply_edit("ab", "", "x"), Err(EditError::TargetNotUnique { count: 3 }));
    assert_eq!(apply_edit("", "", "new").unwrap(), "new");
}

#[test]
fn edit_restores_crlf_endings() {
    let content = "line one\r\nline two\r\nline three\r\n";
    let out = apply_edit(content, "line two\n", "second line\nextra\n").unwrap();
    assert_eq!(out, "line one\r\nsecond line\r\nextra\r\nline three\r\n");
}

#[test]
fn edit_normalises_crlf_target_on_lf_file() {
    let out = apply_edit("a\nb\nc\n", "a\r\nb", "z").unwrap();
    assert_eq!(out, "z\nc\n");
}

#[test]
fn edit_identity_keeps_text() {
    let lf = "alpha\nbeta\ngamma\n";
    assert_eq!(apply_edit(lf, "beta", "beta").unwrap(), lf);
    let crlf = "alpha\r\nbeta\r\ngamma\r\n";
    assert_eq!(apply_edit(crlf, "beta\r\n", "beta\r\n").unwrap(), crlf);
}

#[test]
fn edit_undo_restores_content() {
    let content = "let x = compute();\nprint(x);\n";
    let edited = apply_edit(content, "compute()", "compute_fast()").unwrap();
    assert_eq!(edited, "let x = compute_fast();\nprint(x);\n");
    let back = apply_edit(&edited, "compute_fast()", "compute()").unwrap();
    assert_eq!(back, content);
}

#[test]
fn edit_success_text() {
    assert_eq!(edit_success_message("lib.rs"), "Successfully applied edit to lib.rs");
}

#[test]
fn edit_helpers_on_chars() {
    assert_eq!(count_matches(&chars("abcabc"), &chars("bc")), 2);
    assert_eq!(count_matches(&chars("abc"), &chars("")), 4);
    assert_eq!(count_matches(&chars("aaa"), &chars("aa")), 2);
    assert_eq!(count_matches(&chars("abab"), &chars("aba")), 1);
    assert_eq!(find_first(&chars("xxabxab"), &chars("ab")), Some(2));
    assert_eq!(find_first(&chars("xx"), &chars("ab")), None);
    assert_eq!(crlf_to_lf_chars(&chars("a\r\nb\rc\r\n")), chars("a\nb\rc\n"));
    assert_eq!(lf_to_crlf_chars(&chars("a\nb\n")), chars("a\r\nb\r\n"));
    assert!(contains_crlf(&chars("x\r\ny")));
    assert!(!contains_crlf(&chars("x\ry\n")));
}
