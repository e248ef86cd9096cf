use twsapi::decimal::{format_i32, format_i64, parse_i32, parse_i64};

#[test]
fn format_i32_writes_decimal_text() {
    assert_eq!(format_i32(0), "0");
    assert_eq!(format_i32(7), "7");
    assert_eq!(format_i32(-123), "-123");
    assert_eq!(format_i32(i32::MAX), "2147483647");
    assert_eq!(format_i32(i32::MIN), "-2147483648");
}

#[test]
fn format_i64_writes_decimal_text() {
    assert_eq!(format_i64(1000000000000), "1000000000000");
    assert_eq!(format_i64(i64::MIN), "-9223372036854775808");
    assert_eq!(format_i64(i64::MAX), "9223372036854775807");
}

#[test]
fn parse_i32_accepts_what_std_accepts() {
    for s in ["0", "+5", "-0", "007", "2147483647", "-2147483648", "", "-", "+", "2147483648",
        "-2147483649", "12a", " 1", "1 ", "--1", "+-1", "99999999999999999999"] {
        assert_eq!(parse_i32(s), s.parse::<i32>().ok(), "text {:?}", s);
    }
}

#[test]
fn parse_i64_accepts_what_std_accepts() {
    for s in ["9223372036854775807", "-9223372036854775808", "9223372036854775808", "-42", "x"] {
        assert_eq!(parse_i64(s), s.parse::<i64>().ok(), "text {:?}", s);
    }
}

#[test]
fn law_i32_text_roundtrip_on_values() {
    for n in [0, 1, -1, 42, -99999, i32::MAX, i32::MIN] {
        assert_eq!(parse_i32(&format_i32(n)), Some(n));
    }
    for n in [0i64, i64::MAX, i64::MIN, -5] {
        assert_eq!(parse_i64(&format_i64(n)), Some(n));
    }
}
