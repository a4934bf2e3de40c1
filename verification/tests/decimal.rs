use krewetka::decimal::{i64_to_decimal, parse_u64, parse_usize, u64_to_decimal, usize_to_decimal};

#[test]
fn decimal_writes_numbers_like_to_string() {
    assert_eq!(u64_to_decimal(0), "0");
    assert_eq!(u64_to_decimal(7), "7");
    assert_eq!(u64_to_decimal(1234567890), "1234567890");
    assert_eq!(u64_to_decimal(u64::MAX), u64::MAX.to_string());
    assert_eq!(usize_to_decimal(42), "42");
    assert_eq!(i64_to_decimal(-5), "-5");
    assert_eq!(i64_to_decimal(0), "0");
    assert_eq!(i64_to_decimal(i64::MIN), i64::MIN.to_string());
    assert_eq!(i64_to_decimal(i64::MAX), i64::MAX.to_string());
}

#[test]
fn decimal_parses_like_from_str() {
    assert_eq!(parse_u64("42"), Some(42));
    assert_eq!(parse_u64("+42"), Some(42));
    assert_eq!(parse_u64("007"), Some(7));
    assert_eq!(parse_u64("18446744073709551615"), Some(u64::MAX));
    for bad in ["", "+", "-1", "4 2", "12a", "18446744073709551616", "++1", "٣"] {
        assert_eq!(parse_u64(bad), None, "{bad}");
        assert_eq!(bad.parse::<u64>().ok(), None, "{bad}");
    }
    assert_eq!(parse_usize("3"), Some(3));
    assert_eq!(parse_usize("x"), None);
}

#[test]
fn decimal_round_trips() {
    for n in [0u64, 1, 9, 10, 99, 100, 65535, 1 << 40, u64::MAX - 1] {
        assert_eq!(parse_u64(&u64_to_decimal(n)), Some(n));
    }
}
