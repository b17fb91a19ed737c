use apex_code::text::{
    chars_of, contains_str, decimal_string, ends_with_chars, eq_ignore_ascii_case_str,
    is_blank_str, push_padded_decimal, push_signed_decimal, split_lines, split_words,
    starts_with_str, to_lowercase, trim_chars, trim_end_chars,
};

fn strings(v: Vec<Vec<char>>) -> Vec<String> {
    v.into_iter().map(|l| l.into_iter().collect()).collect()
}

#[test]
fn decimals() {
    assert_eq!(decimal_string(0), "0");
    assert_eq!(decimal_string(1234567), "1234567");
    let mut s = String::new();
    push_signed_decimal(&mut s, -42);
    assert_eq!(s, "-42");
    let mut s = String::new();
    push_padded_decimal(&mut s, 7, 4);
    push_padded_decimal(&mut s, 12345, 4);
    assert_eq!(s, "   712345");
}

#[test]
fn trimming_and_blank() {
    assert_eq!(trim_chars(&chars_of("\t a b \u{3000}")), chars_of("a b"));
    assert_eq!(trim_end_chars(&chars_of("  x  ")), chars_of("  x"));
    assert!(is_blank_str(" \n\t\u{a0}"));
    assert!(!is_blank_str(" x "));
}

#[test]
fn searching_text() {
    assert!(contains_str("hello world", "o w"));
    assert!(contains_str("abc", ""));
    assert!(!contains_str("abc", "abcd"));
    assert!(starts_with_str("/help", "/"));
    assert!(ends_with_chars(&chars_of("file.rs"), &chars_of(".rs")));
    assert!(eq_ignore_ascii_case_str("OmniRoute", "omniroute"));
    assert!(!eq_ignore_ascii_case_str("omniroutes", "omniroute"));
    assert_eq!(to_lowercase("SRC/Main.RS"), "src/main.rs");
}

#[test]
fn lines_like_str_lines() {
    assert_eq!(strings(split_lines(&chars_of("a\nb\r\n\nc"))), vec!["a", "b", "", "c"]);
    assert_eq!(strings(split_lines(&chars_of("a\n"))), vec!["a"]);
    assert!(split_lines(&chars_of("")).is_empty());
    assert_eq!(strings(split_lines(&chars_of("x\r"))), vec!["x\r"]);
}

#[test]
fn words_like_split_whitespace() {
    assert_eq!(strings(split_words(&chars_of("  /model   a:free \t x "))), vec!["/model", "a:free", "x"]);
    assert!(split_words(&chars_of("   ")).is_empty());
}
