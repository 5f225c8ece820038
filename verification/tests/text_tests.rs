use sada::text::{contains_text, owned, push_decimal, push_signed_decimal, push_text, same_text, starts_with_char, strip_line_breaks};

#[test]
fn substring_search() {
    assert!(contains_text("HTTP/1.0 401 Unauthorized", "401"));
    assert!(contains_text("abc", ""));
    assert!(contains_text("abc", "abc"));
    assert!(!contains_text("ab", "abc"));
    assert!(!contains_text("40 1", "401"));
    assert!(contains_text("x4011", "401"));
    assert!(contains_text("日本401", "401"));
}

#[test]
fn decimal_rendering() {
    let mut s = owned("n=");
    push_decimal(&mut s, 0);
    push_text(&mut s, ",");
    push_decimal(&mut s, 8000);
    push_text(&mut s, ",");
    push_decimal(&mut s, u128::MAX);
    assert_eq!(s, format!("n=0,8000,{}", u128::MAX));
    let mut t = String::new();
    push_signed_decimal(&mut t, -42);
    push_signed_decimal(&mut t, i64::MIN);
    push_signed_decimal(&mut t, 7);
    assert_eq!(t, format!("-42{}7", i64::MIN));
}

#[test]
fn comparisons_and_cleanup() {
    assert!(same_text("My Server", "My Server"));
    assert!(!same_text("My Server", "My server"));
    assert!(!same_text("a", "ab"));
    assert!(starts_with_char("/x", '/'));
    assert!(!starts_with_char("", '/'));
    assert_eq!(strip_line_breaks("\r\nline\r\n two\n"), "line two");
    assert_eq!(strip_line_breaks(&strip_line_breaks("a\nb")), "ab");
}
