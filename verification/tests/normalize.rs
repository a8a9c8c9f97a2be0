use macclaw_panel::text::{is_whitespace_char, normalize_selection_text, MAX_SELECTION_CHARS};

#[test]
fn trims_surrounding_whitespace() {
    assert_eq!(normalize_selection_text("  hello world  \n"), "hello world");
}

#[test]
fn empty_input_stays_empty() {
    assert_eq!(normalize_selection_text(""), "");
}

#[test]
fn whitespace_only_becomes_empty() {
    assert_eq!(normalize_selection_text(" \t\r\n"), "");
    assert_eq!(normalize_selection_text("\u{3000}\u{a0} "), "");
}

#[test]
fn interior_whitespace_is_kept() {
    assert_eq!(normalize_selection_text("a  b\tc"), "a  b\tc");
}

#[test]
fn unicode_whitespace_is_trimmed() {
    assert_eq!(normalize_selection_text("\u{2028}text\u{a0}"), "text");
}

#[test]
fn exactly_at_the_bound_is_untouched() {
    let s: String = "a".repeat(MAX_SELECTION_CHARS);
    assert_eq!(normalize_selection_text(&s), s);
}

#[test]
fn long_text_is_cut_to_the_bound() {
    let s: String = "a".repeat(MAX_SELECTION_CHARS + 1000);
    let out = normalize_selection_text(&s);
    assert_eq!(out.chars().count(), MAX_SELECTION_CHARS);
    assert_eq!(out, "a".repeat(MAX_SELECTION_CHARS));
}

#[test]
fn truncation_counts_scalar_values_not_bytes() {
    let s: String = "λ".repeat(MAX_SELECTION_CHARS + 500);
    let out = normalize_selection_text(&s);
    assert_eq!(out.chars().count(), MAX_SELECTION_CHARS);
    assert_eq!(out, "λ".repeat(MAX_SELECTION_CHARS));
}

#[test]
fn truncation_appends_no_marker() {
    let s = format!("  {}  ", "b".repeat(MAX_SELECTION_CHARS + 1));
    let out = normalize_selection_text(&s);
    assert_eq!(out, "b".repeat(MAX_SELECTION_CHARS));
    assert!(out.ends_with('b'));
}

#[test]
fn whitespace_classification_matches_unicode() {
    for c in [' ', '\t', '\n', '\r', '\u{b}', '\u{c}', '\u{85}', '\u{a0}', '\u{1680}',
        '\u{2000}', '\u{2005}', '\u{200a}', '\u{2028}', '\u{2029}', '\u{202f}', '\u{205f}',
        '\u{3000}']
    {
        assert!(is_whitespace_char(c), "{:?} should be whitespace", c);
        assert!(c.is_whitespace(), "{:?} disagrees with the standard library", c);
    }
    for c in ['a', '0', 'λ', '\u{200b}', '-'] {
        assert!(!is_whitespace_char(c), "{:?} should not be whitespace", c);
        assert!(!c.is_whitespace(), "{:?} disagrees with the standard library", c);
    }
}
