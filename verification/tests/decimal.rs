use trade_alert::decimal::{parse_decimal, parse_integer, Price};

#[test]
fn price_reads_two_decimals() {
    assert_eq!(Price::parse(b"150.00"), Some(Price { micros: 150_000_000 }));
    assert_eq!(Price::parse(b"9.80"), Some(Price { micros: 9_800_000 }));
}

#[test]
fn price_drops_digits_past_the_sixth() {
    assert_eq!(Price::parse(b"0.1234567"), Some(Price { micros: 123_456 }));
    assert_eq!(Price::parse(b"-0.1234569"), Some(Price { micros: -123_456 }));
}

#[test]
fn price_accepts_bare_dot_forms() {
    assert_eq!(Price::parse(b".5"), Some(Price { micros: 500_000 }));
    assert_eq!(Price::parse(b"5."), Some(Price { micros: 5_000_000 }));
    assert_eq!(Price::parse(b"+27.55"), Some(Price { micros: 27_550_000 }));
}

#[test]
fn price_rejects_what_is_no_numeral() {
    assert_eq!(Price::parse(b""), None);
    assert_eq!(Price::parse(b"."), None);
    assert_eq!(Price::parse(b"-"), None);
    assert_eq!(Price::parse(b"1.2.3"), None);
    assert_eq!(Price::parse(b"1e5"), None);
    assert_eq!(Price::parse(b"12a"), None);
    assert_eq!(Price::parse(b" 12"), None);
    assert_eq!(Price::parse(b"--1"), None);
}

#[test]
fn price_rejects_what_does_not_fit() {
    assert_eq!(Price::parse(b"9223372036854.775807"), Some(Price { micros: i64::MAX }));
    assert_eq!(Price::parse(b"9223372036854.775808"), None);
    assert_eq!(Price::parse(b"-9223372036854.775808"), Some(Price { micros: i64::MIN }));
    assert_eq!(Price::parse(b"-9223372036854.775809"), None);
    assert_eq!(Price::parse(b"99999999999999999999999999"), None);
}

#[test]
fn decimal_at_scale_zero_cuts_the_fraction() {
    assert_eq!(parse_decimal(b"1234567.89", 0), Some(1_234_567));
    assert_eq!(parse_decimal(b"-7.99", 0), Some(-7));
    assert_eq!(parse_decimal(b"0.9", 0), Some(0));
}

#[test]
fn decimal_pads_short_fractions() {
    assert_eq!(parse_decimal(b"1.5", 3), Some(1_500));
    assert_eq!(parse_decimal(b"1", 3), Some(1_000));
    assert_eq!(parse_decimal(b"000012.340", 2), Some(1_234));
}

#[test]
fn integer_takes_no_dot() {
    assert_eq!(parse_integer(b"22114263"), Some(22_114_263));
    assert_eq!(parse_integer(b"-5"), Some(-5));
    assert_eq!(parse_integer(b"+5"), Some(5));
    assert_eq!(parse_integer(b"5."), None);
    assert_eq!(parse_integer(b"5.0"), None);
    assert_eq!(parse_integer(b""), None);
    assert_eq!(parse_integer(b"9223372036854775807"), Some(i64::MAX));
    assert_eq!(parse_integer(b"9223372036854775808"), None);
    assert_eq!(parse_integer(b"-9223372036854775808"), Some(i64::MIN));
}

#[test]
fn prices_compare_by_value() {
    let low = Price { micros: 9_800_000 };
    let high = Price { micros: 10_000_000 };
    assert!(high.at_least(&low));
    assert!(high.at_least(&high));
    assert!(!low.at_least(&high));
    assert!(low.at_most(&high));
    assert!(low.at_most(&low));
    assert!(!high.at_most(&low));
}
