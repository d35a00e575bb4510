use prompt_harness::text::{
    bytes_eq, debug_optional_string, is_whitespace, push_decimal, str_eq, str_is_blank,
    str_starts_with,
};

#[test]
fn push_decimal_writes_digits() {
    let mut s = String::from("n=");
    push_decimal(&mut s, 0);
    assert_eq!(s, "n=0");
    let mut s = String::new();
    push_decimal(&mut s, 1234567890);
    assert_eq!(s, "1234567890");
    let mut s = String::new();
    push_decimal(&mut s, u64::MAX);
    assert_eq!(s, u64::MAX.to_string());
}

#[test]
fn string_comparisons() {
    assert!(str_eq("application/pdf", "application/pdf"));
    assert!(!str_eq("application/pdf", "application/pdfx"));
    assert!(!str_eq("é", "e"));
    assert!(str_starts_with("image/png", "image/"));
    assert!(str_starts_with("image/", "image/"));
    assert!(!str_starts_with("imag", "image/"));
    assert!(!str_starts_with("video/mp4", "image/"));
    assert!(bytes_eq(b"abc", b"abc"));
    assert!(!bytes_eq(b"abc", b"abd"));
    assert!(!bytes_eq(b"abc", b"ab"));
}

#[test]
fn blank_strings() {
    assert!(str_is_blank(""));
    assert!(str_is_blank(" \t\r\n\u{a0}\u{3000}"));
    assert!(!str_is_blank("  x  "));
    assert!(is_whitespace(' '));
    assert!(!is_whitespace('a'));
}

#[test]
fn debug_text_of_optional_strings() {
    assert_eq!(debug_optional_string(&None), "None");
    assert_eq!(debug_optional_string(&Some("a\"b".to_string())), "Some(\"a\\\"b\")");
}


#[test]
fn whitespace_agrees_with_std_on_every_char() {
    for u in 0u32..=0x10FFFF {
        if let Some(c) = char::from_u32(u) {
            assert_eq!(is_whitespace(c), c.is_whitespace(), "U+{:04X}", u);
        }
    }
}
