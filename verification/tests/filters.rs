use orac::filters::{or_else, or_empty, string_or_empty};

#[test]
fn or_empty_shows_the_string_or_nothing() {
    assert_eq!(or_empty(&Some("logo.png".to_string())).unwrap(), "logo.png");
    assert_eq!(or_empty(&None).unwrap(), "");
}

#[test]
fn string_or_empty_shows_the_text_or_nothing() {
    assert_eq!(string_or_empty(&Some(-5i32)).unwrap(), "-5");
    assert_eq!(string_or_empty(&Some(77u64)).unwrap(), "77");
    assert_eq!(string_or_empty(&Some("0 0 * * *".to_string())).unwrap(), "0 0 * * *");
    assert_eq!(string_or_empty::<i64>(&None).unwrap(), "");
}

#[test]
fn or_else_falls_back_on_missing_or_empty() {
    assert_eq!(or_else(&Some("general".to_string()), "fallback".to_string()).unwrap(), "general");
    assert_eq!(or_else(&Some(String::new()), "fallback".to_string()).unwrap(), "fallback");
    assert_eq!(or_else::<String, i32>(&None, 12).unwrap(), "12");
    assert_eq!(or_else(&Some(0i64), 1i32).unwrap(), "0");
}

#[test]
fn or_else_with_a_fallback_is_never_empty() {
    for s in [None, Some(String::new()), Some("x".to_string())] {
        assert!(!or_else(&s, "(none)".to_string()).unwrap().is_empty());
    }
}

#[test]
fn filters_take_string_slices_numbers_and_flags() {
    assert_eq!(or_else(&Some(""), "none").unwrap(), "none");
    assert_eq!(or_else(&Some("text"), "none").unwrap(), "text");
    assert_eq!(string_or_empty(&Some(true)).unwrap(), "true");
    assert_eq!(string_or_empty(&Some(false)).unwrap(), "false");
    assert_eq!(string_or_empty(&Some(255u8)).unwrap(), "255");
    assert_eq!(string_or_empty(&Some(65535u16)).unwrap(), "65535");
    assert_eq!(string_or_empty(&Some(4294967295u32)).unwrap(), "4294967295");
    assert_eq!(string_or_empty(&Some(7usize)).unwrap(), "7");
    assert_eq!(string_or_empty(&Some(-128i8)).unwrap(), "-128");
    assert_eq!(string_or_empty(&Some(-32768i16)).unwrap(), "-32768");
}
