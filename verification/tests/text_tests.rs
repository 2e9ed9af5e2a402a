use ashares::text::{
    char_is_digit, parse_numeral, parse_signed_numeral, same_text, signed_text, unsigned_text,
    without_last,
};

#[test]
fn digits_are_the_ten_ascii_digits() {
    for c in ['0', '5', '9'] {
        assert!(char_is_digit(c));
    }
    for c in ['a', ' ', '/', ':', '٣'] {
        assert!(!char_is_digit(c));
    }
}

#[test]
fn numeral_is_digits_only() {
    assert_eq!(parse_numeral("0", u64::MAX), Some(0));
    assert_eq!(parse_numeral("15", u64::MAX), Some(15));
    assert_eq!(parse_numeral("007", u64::MAX), Some(7));
    assert_eq!(parse_numeral("", u64::MAX), None);
    assert_eq!(parse_numeral("+5", u64::MAX), None);
    assert_eq!(parse_numeral("-5", u64::MAX), None);
    assert_eq!(parse_numeral("5m", u64::MAX), None);
    assert_eq!(parse_numeral(" 5", u64::MAX), None);
}

#[test]
fn numeral_respects_its_limit() {
    assert_eq!(parse_numeral("18446744073709551615", u64::MAX), Some(u64::MAX));
    assert_eq!(parse_numeral("18446744073709551616", u64::MAX), None);
    assert_eq!(parse_numeral("000018446744073709551615", u64::MAX), Some(u64::MAX));
    assert_eq!(parse_numeral("99999999999999999999999", u64::MAX), None);
    assert_eq!(parse_numeral("10", 10), Some(10));
    assert_eq!(parse_numeral("11", 10), None);
    assert_eq!(parse_numeral("3", 2), None);
    assert_eq!(parse_numeral("0", 0), Some(0));
}

#[test]
fn signed_numeral_agrees_with_std() {
    let samples = [
        "0", "-0", "+0", "7", "-7", "+7", "240", "-", "+", "", "--1", "+-1", "1-", "1 ", " 1",
        "9223372036854775807", "9223372036854775808", "-9223372036854775808",
        "-9223372036854775809", "+9223372036854775807", "+9223372036854775808", "0x10", "1_000",
        "12a", "٣",
    ];
    for s in samples {
        assert_eq!(parse_signed_numeral(s), s.parse::<i64>().ok(), "{:?}", s);
    }
}

#[test]
fn unsigned_text_is_decimal() {
    assert_eq!(unsigned_text(0), "0");
    assert_eq!(unsigned_text(9), "9");
    assert_eq!(unsigned_text(10), "10");
    assert_eq!(unsigned_text(7200), "7200");
    assert_eq!(unsigned_text(u64::MAX), "18446744073709551615");
}

#[test]
fn signed_text_is_decimal_with_sign() {
    assert_eq!(signed_text(0), "0");
    assert_eq!(signed_text(5), "5");
    assert_eq!(signed_text(-5), "-5");
    assert_eq!(signed_text(i64::MAX), "9223372036854775807");
    assert_eq!(signed_text(i64::MIN), "-9223372036854775808");
}

#[test]
fn text_that_was_written_is_read_back() {
    for n in [0u64, 1, 9, 10, 99, 100, 240, 1200, 7200, 65535, u64::MAX] {
        assert_eq!(parse_numeral(&unsigned_text(n), u64::MAX), Some(n));
    }
    for n in [0i64, -1, 1, -240, i64::MIN, i64::MAX] {
        assert_eq!(parse_signed_numeral(&signed_text(n)), Some(n));
    }
}

#[test]
fn same_text_compares_characters() {
    assert!(same_text("", ""));
    assert!(same_text("1w", "1w"));
    assert!(!same_text("1w", "1W"));
    assert!(!same_text("1w", "1"));
    assert!(!same_text("1", "1w"));
    assert!(same_text("日线", "日线"));
    assert!(!same_text("日线", "周线"));
}

#[test]
fn without_last_drops_one_character() {
    assert_eq!(without_last(""), "");
    assert_eq!(without_last("m"), "");
    assert_eq!(without_last("15m"), "15");
    assert_eq!(without_last("5分"), "5");
}
