use mermaid_it::text::{dec_string, escape_backtick_literal};

#[test]
fn dec_string_formats_decimals() {
    assert_eq!(dec_string(0), "0");
    assert_eq!(dec_string(7), "7");
    assert_eq!(dec_string(800), "800");
    assert_eq!(dec_string(600), "600");
    assert_eq!(dec_string(123456), "123456");
}

#[test]
fn escape_prefixes_backticks_and_markers() {
    assert_eq!(escape_backtick_literal("graph TD; A-->B;"), "graph TD; A-->B;");
    assert_eq!(escape_backtick_literal("a`b"), "a\\`b");
    assert_eq!(escape_backtick_literal("${x}"), "\\${x}");
    assert_eq!(escape_backtick_literal("``"), "\\`\\`");
    assert_eq!(escape_backtick_literal(""), "");
}
