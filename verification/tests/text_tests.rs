use audiocrab::text::{parse_unsigned_str, str_eq, to_ascii_lowercase, trim, u64_to_decimal};

#[test]
fn decimal_numbers_format_and_parse() {
    assert_eq!(u64_to_decimal(0), "0");
    assert_eq!(u64_to_decimal(1234567890), "1234567890");
    assert_eq!(u64_to_decimal(u64::MAX), u64::MAX.to_string());
    assert_eq!(parse_unsigned_str("42", 100), Some(42));
    assert_eq!(parse_unsigned_str("+7", 100), Some(7));
    assert_eq!(parse_unsigned_str("0007", 100), Some(7));
    assert_eq!(parse_unsigned_str("100", 100), Some(100));
    assert_eq!(parse_unsigned_str("101", 100), None);
    assert_eq!(parse_unsigned_str("", 100), None);
    assert_eq!(parse_unsigned_str("+", 100), None);
    assert_eq!(parse_unsigned_str("-3", 100), None);
    assert_eq!(parse_unsigned_str("1_0", 100), None);
    assert_eq!(parse_unsigned_str("18446744073709551615", u64::MAX), Some(u64::MAX));
    assert_eq!(parse_unsigned_str("18446744073709551616", u64::MAX), None);
    for n in [0u64, 9, 10, 99, 65535, 4294967296] {
        assert_eq!(parse_unsigned_str(&u64_to_decimal(n), u64::MAX), Some(n));
    }
}

#[test]
fn trimming_and_lowering_match_std() {
    for s in ["  Hello World\t\n", "\u{3000}x\u{a0}", "", "   ", "A-Z é Ä", "\u{2028}Mixed Case\u{85}"] {
        assert_eq!(trim(s), s.trim());
        assert_eq!(to_ascii_lowercase(s), s.to_ascii_lowercase());
    }
    assert!(str_eq("abc", "abc"));
    assert!(!str_eq("abc", "abd"));
    assert!(!str_eq("ab", "abc"));
}
