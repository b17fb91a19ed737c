use apex_code::search::{join_strings, FindSearch, RipgrepSearch, SearchError};

#[test]
fn ripgrep_reports_matching_lines() {
    let mut s = RipgrepSearch::start(r"fn \w+", false).unwrap();
    assert!(!s.add_file("src/a.rs", "fn main() {}  \nlet x = 1;\nfn helper()\n"));
    assert!(!s.add_file("src/b.rs", "no match here\n"));
    assert_eq!(s.finish(), "src/a.rs:1: fn main() {}\nsrc/a.rs:3: fn helper()");
}

#[test]
fn ripgrep_case_flag_is_used() {
    let mut s = RipgrepSearch::start("TODO", true).unwrap();
    s.add_file("x.txt", "todo: write tests\nDone\n");
    assert_eq!(s.finish(), "x.txt:1: todo: write tests");
    let mut s = RipgrepSearch::start("TODO", false).unwrap();
    s.add_file("x.txt", "todo: write tests\n");
    assert_eq!(s.finish(), "No matches found for pattern: 'TODO'");
}

#[test]
fn ripgrep_refuses_invalid_pattern() {
    match RipgrepSearch::start("(unclosed", false) {
        Err(SearchError::InvalidPattern(e)) => assert!(!e.to_string().is_empty()),
        Ok(_) => panic!("the pattern does not compile"),
    }
}

#[test]
fn ripgrep_stops_at_sixty_matches() {
    let content: String = (0..70).map(|i| format!("match {}\n", i)).collect();
    let mut s = RipgrepSearch::start("match", false).unwrap();
    assert!(!s.is_full());
    assert!(s.add_file("many.txt", &content));
    assert!(s.is_full());
    let out = s.finish();
    let lines: Vec<&str> = out.lines().collect();
    assert_eq!(lines.len(), 61);
    assert_eq!(lines[0], "many.txt:1: match 0");
    assert_eq!(lines[59], "many.txt:60: match 59");
    assert_eq!(lines[60], "... (Results truncated at 60 matches)");
}

#[test]
fn ripgrep_records_given_verdicts() {
    let mut s = RipgrepSearch::start("anything", false).unwrap();
    assert!(!s.record_line("p.rs", 7, "  value  ", true));
    assert!(!s.record_line("p.rs", 8, "skipped", false));
    assert_eq!(s.finish(), "p.rs:7:   value");
}

#[test]
fn find_files_ignores_case() {
    let mut f = FindSearch::start("SRC");
    assert!(!f.add_entry("src", true));
    assert!(!f.add_entry("src/Main.rs", false));
    assert!(!f.add_entry("README.md", false));
    assert_eq!(f.finish(), "[DIR ] src\n[FILE] src/Main.rs");
}

#[test]
fn find_files_without_matches() {
    let mut f = FindSearch::start("zzz");
    f.add_entry("a.rs", false);
    assert_eq!(f.finish(), "No files or directories matching 'zzz'");
}

#[test]
fn find_files_stops_at_fifty() {
    let mut f = FindSearch::start(".rs");
    let mut full = false;
    let mut n = 0;
    while !full {
        full = f.add_entry(&format!("f{}.rs", n), false);
        n += 1;
    }
    assert_eq!(n, 50);
    let out = f.finish();
    assert!(out.ends_with("[FILE] f49.rs\n... (Truncated at 50 matches)"));
}

#[test]
fn find_files_records_lowered_paths() {
    let mut f = FindSearch::start("doc");
    assert!(!f.record_entry("Docs/A.md", "docs/a.md", false));
    assert!(!f.record_entry("other", "other", true));
    assert_eq!(f.finish(), "[FILE] Docs/A.md");
}

#[test]
fn join_with_newlines() {
    assert_eq!(join_strings(&vec!["a".to_string(), "b".to_string()]), "a\nb");
    assert_eq!(join_strings(&vec![]), "");
}
