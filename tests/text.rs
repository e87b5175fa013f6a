use gazetta_theme::{is_blank, slugify};

#[test]
fn slugify_titles() {
    assert_eq!(slugify("  Hello World  "), "hello-world");
    assert_eq!(slugify("Rust_2018 -- Edition!"), "rust_2018---edition");
    assert_eq!(slugify("a  \t b"), "a-b");
    assert_eq!(slugify(""), "");
    assert_eq!(slugify("Ünïcode Title"), "ncode-title");
}

#[test]
fn blank_strings() {
    assert!(is_blank(""));
    assert!(is_blank(" \n\t\u{a0}"));
    assert!(!is_blank("  x "));
}
