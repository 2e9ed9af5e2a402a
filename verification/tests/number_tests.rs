use ashares::number::is_float_text;
use ashares::Decimal;

const SAMPLES: [&str; 64] = [
    "0", "1", "3250.60", "-1", "+1", "1.", ".5", "-.5", "+.5", ".", "-", "+", "", "1e5", "1E5",
    "1e+5", "1e-5", "1e", "1e+", "e5", "1.5e3", "1.e3", ".5e3", ".e3", "1.5e3.2", "1e5e5", "inf",
    "INF", "Inf", "-inf", "+inf", "infinity", "Infinity", "-INFINITY", "infinit", "infinityy",
    "nan", "NaN", "NAN", "-nan", "+nan", "na", "nann", " 1", "1 ", "1 000", "1,000", "1_000",
    "0x10", "--1", "+-1", "1-", "1+1", "abc", "12a", "a12", "1..2", "..1", "00012.5000",
    "123456789012345678901234567890.123456789012345678901234567890", "1e400", "١٢٣", "1.5f",
    "in",
];

#[test]
fn float_text_agrees_with_the_float_parser() {
    for s in SAMPLES {
        assert_eq!(is_float_text(s), s.parse::<f64>().is_ok(), "{:?}", s);
    }
}

#[test]
fn float_text_accepts_prices() {
    assert!(is_float_text("3250.600"));
    assert!(is_float_text("0.01"));
    assert!(is_float_text("39912345600"));
    assert!(is_float_text("1.5e-7"));
}

#[test]
fn float_text_rejects_what_is_no_number() {
    assert!(!is_float_text(""));
    assert!(!is_float_text("."));
    assert!(!is_float_text("--"));
    assert!(!is_float_text("3250,60"));
    assert!(!is_float_text(" 3250.60"));
    assert!(!is_float_text("null"));
}

#[test]
fn decimal_keeps_the_text() {
    let d = Decimal::parse("3250.60").unwrap();
    assert_eq!(d.as_str(), "3250.60");
    assert_eq!(d.text, "3250.60");
    assert_eq!(d.as_str().parse::<f64>().unwrap(), 3250.6);
    assert_eq!(Decimal::parse("3250.6o"), None);
    assert_eq!(Decimal::parse(""), None);
}
