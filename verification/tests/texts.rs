use xenonc::text::{decimal_string, join_path, same_text, signed_decimal_string};

#[test]
fn decimal_digits() {
    assert_eq!(decimal_string(0), "0");
    assert_eq!(decimal_string(9), "9");
    assert_eq!(decimal_string(10), "10");
    assert_eq!(decimal_string(1234567890), "1234567890");
    assert_eq!(decimal_string(u64::MAX), "18446744073709551615");
}

#[test]
fn signed_decimal_digits() {
    assert_eq!(signed_decimal_string(0), "0");
    assert_eq!(signed_decimal_string(-1), "-1");
    assert_eq!(signed_decimal_string(42), "42");
    assert_eq!(signed_decimal_string(i64::MIN), "-9223372036854775808");
    assert_eq!(signed_decimal_string(i64::MAX), "9223372036854775807");
}

#[test]
fn joining_paths() {
    assert_eq!(join_path("", "out"), "out");
    assert_eq!(join_path(".", "out"), "./out");
    assert_eq!(join_path("a/b", "out"), "a/b/out");
    assert_eq!(join_path("a/b/", "out"), "a/b/out");
    assert_eq!(join_path("d\u{e9}p\u{f4}t", "out"), "d\u{e9}p\u{f4}t/out");
}

#[test]
fn comparing_texts() {
    assert!(same_text("u32", "u32"));
    assert!(!same_text("u32", "i32"));
    assert!(!same_text("u32", "u3"));
    assert!(same_text("", ""));
}
