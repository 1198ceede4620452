use budget_manager::text::{concat3, format_i32, parse_i32};

#[test]
fn formats_integers_in_decimal() {
    assert_eq!(format_i32(0), "0");
    assert_eq!(format_i32(42), "42");
    assert_eq!(format_i32(-7), "-7");
    assert_eq!(format_i32(1000), "1000");
    assert_eq!(format_i32(i32::MAX), "2147483647");
    assert_eq!(format_i32(i32::MIN), "-2147483648");
}

#[test]
fn formats_like_to_string() {
    for n in [-1000001, -10, -1, 0, 1, 9, 10, 99, 100, 123456789] {
        assert_eq!(format_i32(n), n.to_string());
    }
}

#[test]
fn parses_signed_decimal_text() {
    assert_eq!(parse_i32("42"), Some(42));
    assert_eq!(parse_i32("+5"), Some(5));
    assert_eq!(parse_i32("-0"), Some(0));
    assert_eq!(parse_i32("007"), Some(7));
    assert_eq!(parse_i32("-2147483648"), Some(i32::MIN));
    assert_eq!(parse_i32("2147483647"), Some(i32::MAX));
}

#[test]
fn rejects_what_parse_rejects() {
    for s in ["", "-", "+", "12a", "a12", " 1", "1 ", "2147483648", "-2147483649", "99999999999999999999", "--1", "+-1", "1.0"] {
        assert_eq!(parse_i32(s), None, "{s}");
        assert!(s.parse::<i32>().is_err());
    }
}

#[test]
fn parse_agrees_with_std_on_samples() {
    for s in ["0", "+0", "-12", "65536", "0000000000123", "-2147483647"] {
        assert_eq!(parse_i32(s), s.parse::<i32>().ok(), "{s}");
    }
}

#[test]
fn decimal_text_reads_back() {
    for n in [i32::MIN, i32::MIN + 1, -123, -1, 0, 1, 77, 65535, i32::MAX] {
        assert_eq!(parse_i32(&format_i32(n)), Some(n));
    }
}

#[test]
fn concatenates_three_texts() {
    assert_eq!(concat3("a", "bc", ""), "abc");
    assert_eq!(concat3("", "", ""), "");
}
