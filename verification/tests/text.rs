use cpp_build::text::{decimal_string, escape_backslashes, join, split_lines};
use cpp_build::warning::warnln_impl;

#[test]
fn numerals() {
    assert_eq!(decimal_string(0), "0");
    assert_eq!(decimal_string(9), "9");
    assert_eq!(decimal_string(10), "10");
    assert_eq!(decimal_string(1905), "1905");
    assert_eq!(decimal_string(u64::MAX), "18446744073709551615");
}

#[test]
fn numerals_agree_with_the_standard_library() {
    let mut n: u64 = 1;
    for _ in 0..63 {
        assert_eq!(decimal_string(n), n.to_string());
        assert_eq!(decimal_string(n - 1), (n - 1).to_string());
        n *= 2;
    }
}

#[test]
fn different_numbers_have_different_numerals() {
    assert_ne!(decimal_string(1), decimal_string(11));
    assert_ne!(decimal_string(10), decimal_string(100));
}

#[test]
fn joining() {
    let parts = |list: &[&str]| list.iter().map(|p| p.to_string()).collect::<Vec<String>>();
    assert_eq!(join(&parts(&[]), ", "), "");
    assert_eq!(join(&parts(&["a"]), ", "), "a");
    assert_eq!(join(&parts(&["a", "", "c"]), ", "), "a, , c");
}

#[test]
fn escaping() {
    assert_eq!(escape_backslashes(""), "");
    assert_eq!(escape_backslashes("src/lib.rs"), "src/lib.rs");
    assert_eq!(escape_backslashes("a\\b\\\\c\u{e9}"), "a\\\\b\\\\\\\\c\u{e9}");
    assert_eq!(escape_backslashes("\\a"), "\\a".replace('\\', "\\\\"));
    assert_ne!(escape_backslashes("\\"), escape_backslashes("\\\\"));
}

#[test]
fn lines_agree_with_the_standard_library() {
    let samples = [
        "", "a", "a\n", "a\nb", "a\r\nb\r\n", "\n", "\n\n", "\r", "\r\n", "a\r", "a\r\r\n", "a\rb\nc\r",
        "\n\r\n\rx\n\u{e9}\n",
    ];
    for sample in samples {
        assert_eq!(split_lines(sample), sample.lines().collect::<Vec<&str>>());
    }
}

#[test]
fn warnings_have_one_directive_for_each_line() {
    assert_eq!(warnln_impl("one"), vec!["cargo:warning=one"]);
    assert_eq!(
        warnln_impl("one\r\n\nthree\n"),
        vec!["cargo:warning=one", "cargo:warning=", "cargo:warning=three"]
    );
    assert!(warnln_impl("").is_empty());
}
