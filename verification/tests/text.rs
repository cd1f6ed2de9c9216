use logid::text::{chars_of, clone_opt_string, clone_string_slice, clone_strings, join3, string_of, write_decimal};

#[test]
fn decimal_of_small_and_large_numbers() {
    assert_eq!(write_decimal(0), "0");
    assert_eq!(write_decimal(7), "7");
    assert_eq!(write_decimal(10), "10");
    assert_eq!(write_decimal(404), "404");
    assert_eq!(write_decimal(1234), "1234");
    assert_eq!(write_decimal(65535), "65535");
}

#[test]
fn chars_and_back() {
    let chars = chars_of("héllo 世界");
    assert_eq!(chars, vec!['h', 'é', 'l', 'l', 'o', ' ', '世', '界']);
    assert_eq!(string_of(&chars), "héllo 世界");
    assert_eq!(string_of(&Vec::new()), "");
    assert!(chars_of("").is_empty());
}

#[test]
fn join3_writes_in_order() {
    assert_eq!(join3("a", "b", "c"), "abc");
    assert_eq!(join3("", "x", ""), "x");
}

#[test]
fn copies_are_equal() {
    let list = vec!["a".to_string(), "bc".to_string()];
    assert_eq!(clone_strings(&list), list);
    assert_eq!(clone_string_slice(&list[..1]), vec!["a".to_string()]);
    assert_eq!(clone_opt_string(&Some("x".to_string())), Some("x".to_string()));
    assert_eq!(clone_opt_string(&None), None);
}
