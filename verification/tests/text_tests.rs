use f69::text::{copy_str, parse_unsigned, push_decimal, push_signed_decimal, split, str_equal, trim};

#[test]
fn trim_removes_unicode_white_space() {
    assert_eq!(trim("  a b \t\n"), "a b");
    assert_eq!(trim("\u{3000}\u{a0}x\u{2028}"), "x");
    assert_eq!(trim("\u{200b}x"), "\u{200b}x");
    assert_eq!(trim("   "), "");
    assert_eq!(trim(""), "");
    for s in ["\u{85}z\u{1680}", " é ", "\r\n", "a"] {
        assert_eq!(trim(s), s.trim());
    }
}

#[test]
fn split_keeps_empty_pieces() {
    assert_eq!(split("a,b", ','), vec!["a", "b"]);
    assert_eq!(split("", ','), vec![""]);
    assert_eq!(split(",", ','), vec!["", ""]);
    assert_eq!(split("a,,b,", ','), vec!["a", "", "b", ""]);
    for s in ["x", "é,ü", ",,,"] {
        let expected: Vec<&str> = s.split(',').collect();
        assert_eq!(split(s, ','), expected);
    }
}

#[test]
fn unsigned_parsing_limits() {
    assert_eq!(parse_unsigned("255", 255), Some(255));
    assert_eq!(parse_unsigned("256", 255), None);
    assert_eq!(parse_unsigned("0000000000000000000000001", 1), Some(1));
    assert_eq!(parse_unsigned("", 10), None);
}

#[test]
fn decimal_text() {
    let mut s = String::from("n=");
    push_decimal(&mut s, 0);
    assert_eq!(s, "n=0");
    let mut s = String::new();
    push_decimal(&mut s, u64::MAX);
    assert_eq!(s, u64::MAX.to_string());
    let mut s = String::new();
    push_signed_decimal(&mut s, i64::MIN);
    assert_eq!(s, i64::MIN.to_string());
    let mut s = String::new();
    push_signed_decimal(&mut s, -10);
    assert_eq!(s, "-10");
}

#[test]
fn string_helpers() {
    assert_eq!(copy_str("héllo"), "héllo");
    assert!(str_equal("abc", "abc"));
    assert!(!str_equal("abc", "abd"));
    assert!(!str_equal("abc", "ab"));
}
