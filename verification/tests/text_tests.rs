use rengo::text::{i64_to_decimal, parse_decimal, prefix_chars, same_text, u64_to_decimal};

#[test]
fn decimal_of_unsigned_numbers() {
    assert_eq!(u64_to_decimal(0), "0");
    assert_eq!(u64_to_decimal(7), "7");
    assert_eq!(u64_to_decimal(10), "10");
    assert_eq!(u64_to_decimal(1234567890), "1234567890");
    assert_eq!(u64_to_decimal(u64::MAX), u64::MAX.to_string());
}

#[test]
fn decimal_of_signed_numbers() {
    assert_eq!(i64_to_decimal(0), "0");
    assert_eq!(i64_to_decimal(52991), "52991");
    assert_eq!(i64_to_decimal(-5), "-5");
    assert_eq!(i64_to_decimal(i64::MIN), i64::MIN.to_string());
    assert_eq!(i64_to_decimal(i64::MAX), i64::MAX.to_string());
}

#[test]
fn parse_reads_digits_like_std() {
    assert_eq!(parse_decimal("42", 255), Some(42));
    assert_eq!(parse_decimal("+42", 255), Some(42));
    assert_eq!(parse_decimal("007", 255), Some(7));
    assert_eq!(parse_decimal("255", 255), Some(255));
    assert_eq!(parse_decimal("256", 255), None);
    assert_eq!(parse_decimal("", 255), None);
    assert_eq!(parse_decimal("+", 255), None);
    assert_eq!(parse_decimal("-1", 255), None);
    assert_eq!(parse_decimal("1a", 255), None);
    assert_eq!(parse_decimal(" 1", 255), None);
    assert_eq!(parse_decimal("18446744073709551615", u64::MAX), Some(u64::MAX));
    assert_eq!(parse_decimal("18446744073709551616", u64::MAX), None);
    assert_eq!(parse_decimal("99999999999999999999999", u64::MAX), None);
}

#[test]
fn parse_agrees_with_std_on_samples() {
    for s in ["0", "1", "+0", "12", "255", "256", "+", "", "-0", "x", "00255", "1000"] {
        assert_eq!(parse_decimal(s, 255).map(|v| v as u8), s.parse::<u8>().ok(), "{s}");
        assert_eq!(parse_decimal(s, u64::MAX), s.parse::<u64>().ok(), "{s}");
    }
}

#[test]
fn decimal_reads_back() {
    for n in [0u64, 1, 9, 10, 99, 100, 255, 65535, 1 << 40, u64::MAX] {
        assert_eq!(parse_decimal(&u64_to_decimal(n), u64::MAX), Some(n));
    }
}

#[test]
fn prefix_counts_characters() {
    assert_eq!(prefix_chars("hello", 2), "he");
    assert_eq!(prefix_chars("héllo", 2), "hé");
    assert_eq!(prefix_chars("abc", 3), "abc");
    assert_eq!(prefix_chars("abc", 10), "abc");
    assert_eq!(prefix_chars("", 0), "");
}

#[test]
fn same_text_compares_characters() {
    assert!(same_text("anime", "anime"));
    assert!(!same_text("anime", "anim"));
}
