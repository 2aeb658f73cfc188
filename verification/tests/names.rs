use zellij_picker::chars::trim_str;
use zellij_picker::names::parse_name;

#[test]
fn normalize_decorated_label() {
    let raw = "\x1B[1mwork\x1B[0m [Created 2 mins ago]";
    assert_eq!(parse_name(raw), "work");
}

#[test]
fn plain_name_is_unchanged() {
    assert_eq!(parse_name("alpha"), "alpha");
}

#[test]
fn surrounding_whitespace_is_trimmed() {
    assert_eq!(parse_name("  beta  "), "beta");
}

#[test]
fn only_text_before_first_bracket_suffix_is_kept() {
    assert_eq!(parse_name("x [y] [z]"), "x");
}

#[test]
fn ansi_codes_are_stripped_without_bracket_suffix() {
    assert_eq!(parse_name("\x1B[32mgreen\x1B[0m"), "green");
}

#[test]
fn color_reset_and_multi_param_sequences_are_stripped() {
    assert_eq!(parse_name("\x1B[1;31mred\x1B[K"), "red");
}

#[test]
fn unterminated_escape_is_kept() {
    assert_eq!(parse_name("a\x1B[12"), "a\x1B[12");
}

#[test]
fn bracket_without_leading_space_is_part_of_the_name() {
    assert_eq!(parse_name("name[0]"), "name[0]");
}

#[test]
fn trim_str_removes_ascii_whitespace() {
    assert_eq!(trim_str("  x  "), "x");
    assert_eq!(trim_str("\t\r\n"), "");
    assert_eq!(trim_str(""), "");
    assert_eq!(trim_str("a b"), "a b");
}

#[test]
fn trim_str_removes_unicode_whitespace() {
    assert_eq!(trim_str("\u{00a0}x\u{3000}"), "x");
    assert_eq!(trim_str("\u{2003}\u{2028}"), "");
    assert_eq!(trim_str("  x  "), "  x  ".trim());
}

#[test]
fn unicode_whitespace_only_label_normalizes_to_empty() {
    assert_eq!(parse_name("\u{00a0}"), "");
    assert_eq!(parse_name("\u{2000}name\u{200a}"), "name");
}
