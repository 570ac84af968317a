use server_api::decimal::{decimal_string, parse_u128};

#[test]
fn decimal_text_of_numbers() {
    assert_eq!(decimal_string(0), "0");
    assert_eq!(decimal_string(7), "7");
    assert_eq!(decimal_string(10), "10");
    assert_eq!(decimal_string(1725029869000), "1725029869000");
    assert_eq!(decimal_string(u128::MAX), u128::MAX.to_string());
}

#[test]
fn parse_accepts_digits_and_plus() {
    assert_eq!(parse_u128("0"), Some(0));
    assert_eq!(parse_u128("42"), Some(42));
    assert_eq!(parse_u128("+42"), Some(42));
    assert_eq!(parse_u128("007"), Some(7));
    assert_eq!(parse_u128("340282366920938463463374607431768211455"), Some(u128::MAX));
}

#[test]
fn parse_refuses_what_from_str_refuses() {
    assert_eq!(parse_u128(""), None);
    assert_eq!(parse_u128("+"), None);
    assert_eq!(parse_u128("-1"), None);
    assert_eq!(parse_u128("12a"), None);
    assert_eq!(parse_u128(" 1"), None);
    assert_eq!(parse_u128("340282366920938463463374607431768211456"), None);
}

#[test]
fn parse_agrees_with_std() {
    for s in ["", "+", "1", "+0", "99", "1x", "18446744073709551616", "٣"] {
        assert_eq!(parse_u128(s), s.parse::<u128>().ok(), "{}", s);
    }
}

#[test]
fn parse_of_decimal_text_round_trips() {
    for n in [0u128, 1, 9, 10, 1200000, 1725029869123, u128::MAX] {
        assert_eq!(parse_u128(&decimal_string(n)), Some(n));
    }
}
