use todo_backend::text::{decimal_string, parse_u64};

#[test]
fn decimal_notation() {
    assert_eq!(decimal_string(0), "0");
    assert_eq!(decimal_string(9), "9");
    assert_eq!(decimal_string(10), "10");
    assert_eq!(decimal_string(8080), "8080");
    assert_eq!(decimal_string(u64::MAX), "18446744073709551615");
}

#[test]
fn reading_unsigned_decimals() {
    assert_eq!(parse_u64("0"), Some(0));
    assert_eq!(parse_u64("+42"), Some(42));
    assert_eq!(parse_u64("007"), Some(7));
    assert_eq!(parse_u64("18446744073709551615"), Some(u64::MAX));
    assert_eq!(parse_u64("18446744073709551616"), None);
    assert_eq!(parse_u64("99999999999999999999x"), None);
    for bad in ["", "+", "-1", "-0", "++1", " 1", "1 ", "1_000", "0x10", "１"] {
        assert_eq!(parse_u64(bad), None, "{bad:?}");
    }
}

#[test]
fn reading_agrees_with_std() {
    for text in ["", "+", "+0", "12", "65535", "65536", "4294967295", "-3", "3a", "+-3", "٣"] {
        assert_eq!(parse_u64(text), text.parse::<u64>().ok(), "{text:?}");
    }
}

#[test]
fn printed_numbers_read_back() {
    for n in [0u64, 1, 9, 10, 99, 100, 65535, 4294967295, u64::MAX] {
        assert_eq!(parse_u64(&decimal_string(n)), Some(n));
    }
}
