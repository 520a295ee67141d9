use botframework::escape_md;
use botframework::text::{starts_with, str_eq};

#[test]
fn escapes_markdown_specials() {
    assert_eq!(escape_md("Hello. (world)!"), "Hello\\. \\(world\\)\\!");
    assert_eq!(
        escape_md("[]()~`>#+-=|{}.!"),
        "\\[\\]\\(\\)\\~\\`\\>\\#\\+\\-\\=\\|\\{\\}\\.\\!"
    );
}

#[test]
fn keeps_other_characters() {
    assert_eq!(escape_md("a_b*c woof"), "a_b*c woof");
    assert_eq!(escape_md("aquí está"), "aquí está");
    assert_eq!(escape_md(""), "");
}

#[test]
fn escape_is_injective_on_examples() {
    assert_ne!(escape_md("a."), escape_md("a\\."));
    assert_ne!(escape_md("\\."), escape_md("."));
}

#[test]
fn string_comparisons() {
    assert!(str_eq("abc", "abc"));
    assert!(!str_eq("abc", "abd"));
    assert!(!str_eq("abc", "ab"));
    assert!(starts_with("Vec < u8 >", "Vec <"));
    assert!(!starts_with("Ve", "Vec <"));
}
