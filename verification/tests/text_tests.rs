use gpop::text::{eq_ignore_ascii_case, parse_dec_u64, str_is_blank, u64_to_dec_string};

#[test]
fn test_decimal_rendering() {
    assert_eq!(u64_to_dec_string(0), "0");
    assert_eq!(u64_to_dec_string(7), "7");
    assert_eq!(u64_to_dec_string(12345), "12345");
    assert_eq!(u64_to_dec_string(u64::MAX), "18446744073709551615");
}

#[test]
fn test_strict_decimal_parsing() {
    assert_eq!(parse_dec_u64("0"), Some(0));
    assert_eq!(parse_dec_u64("42"), Some(42));
    assert_eq!(parse_dec_u64("18446744073709551615"), Some(u64::MAX));
    assert_eq!(parse_dec_u64("18446744073709551616"), None);
    assert_eq!(parse_dec_u64(""), None);
    assert_eq!(parse_dec_u64("007"), None);
    assert_eq!(parse_dec_u64("1a"), None);
    assert_eq!(parse_dec_u64("-1"), None);
    assert_eq!(parse_dec_u64(" 1"), None);
}

#[test]
fn test_rendered_ids_parse_back() {
    for n in [0u64, 1, 9, 10, 99, 100, 4096, u64::MAX] {
        assert_eq!(parse_dec_u64(&u64_to_dec_string(n)), Some(n));
    }
}

#[test]
fn test_blank_detection() {
    assert!(str_is_blank(""));
    assert!(str_is_blank("   \t\n"));
    assert!(!str_is_blank(" a "));
}

#[test]
fn test_ascii_case_insensitive_comparison() {
    assert!(eq_ignore_ascii_case("PLAYING", "playing"));
    assert!(eq_ignore_ascii_case("playing", "playing"));
    assert!(!eq_ignore_ascii_case("playing ", "playing"));
    assert!(!eq_ignore_ascii_case("playin", "playing"));
}
