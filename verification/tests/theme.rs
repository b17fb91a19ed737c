use apex_code::theme::{
    preview_lines, result_line_tone, system_line_tone, token_bar, LineTone, StyleSpec, SwissTheme,
    ThemeColor,
};

#[test]
fn palette_values() {
    assert_eq!(SwissTheme::swiss_red(), ThemeColor::Rgb(235, 0, 41));
    assert_eq!(SwissTheme::border_focused(), SwissTheme::swiss_red());
    assert_eq!(SwissTheme::emerald(), ThemeColor::Rgb(52, 211, 153));
    assert_eq!(SwissTheme::bg_base(), ThemeColor::Rgb(13, 14, 18));
    assert_eq!(
        SwissTheme::badge_red(),
        StyleSpec { fg: Some(ThemeColor::White), bg: Some(ThemeColor::Rgb(235, 0, 41)), bold: true }
    );
    assert_eq!(
        SwissTheme::code_diff_remove(),
        StyleSpec { fg: Some(ThemeColor::Rgb(253, 164, 175)), bg: Some(ThemeColor::Rgb(31, 9, 13)), bold: false }
    );
}

#[test]
fn tool_output_tones() {
    assert_eq!(result_line_tone("+added"), LineTone::Added);
    assert_eq!(result_line_tone("+++ b/file"), LineTone::Plain);
    assert_eq!(result_line_tone("-removed"), LineTone::Removed);
    assert_eq!(result_line_tone("--- a/file"), LineTone::Plain);
    assert_eq!(result_line_tone("@@ -1 +1 @@"), LineTone::Hunk);
    assert_eq!(result_line_tone("context"), LineTone::Plain);
    assert_eq!(result_line_tone(""), LineTone::Plain);
}

#[test]
fn system_message_tones() {
    assert_eq!(system_line_tone("=== CURRENT GIT DIFF ==="), LineTone::Heading);
    assert_eq!(system_line_tone("@@ hunk"), LineTone::Plain);
    assert_eq!(system_line_tone("+x"), LineTone::Added);
    assert_eq!(system_line_tone("-x"), LineTone::Removed);
}

#[test]
fn token_gauge_has_twenty_cells() {
    assert_eq!(token_bar(0), "□".repeat(20));
    assert_eq!(token_bar(999), "□".repeat(20));
    assert_eq!(token_bar(3500), format!("{}{}", "■".repeat(3), "□".repeat(17)));
    assert_eq!(token_bar(20000), "■".repeat(20));
    assert_eq!(token_bar(usize::MAX), "■".repeat(20));
    assert_eq!(token_bar(12345).chars().count(), 20);
}

#[test]
fn previews_first_lines() {
    let (lines, more) = preview_lines("a\nb\nc\nd\ne\nf\n", 5);
    assert_eq!(lines, vec!["a", "b", "c", "d", "e"]);
    assert!(more);
    let (lines, more) = preview_lines("only\r\n", 5);
    assert_eq!(lines, vec!["only"]);
    assert!(!more);
    let (lines, more) = preview_lines("", 5);
    assert!(lines.is_empty());
    assert!(!more);
}
