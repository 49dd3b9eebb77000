use vulpix::decimal::Decimal;

#[test]
fn parses_whole_numbers_and_fractions() {
    assert_eq!(Decimal::parse("300"), Some(Decimal { thousandths: 300_000 }));
    assert_eq!(Decimal::parse("300.5"), Some(Decimal { thousandths: 300_500 }));
    assert_eq!(Decimal::parse("0.125"), Some(Decimal { thousandths: 125 }));
    assert_eq!(Decimal::parse("1.23456"), Some(Decimal { thousandths: 1_234 }));
    assert_eq!(Decimal::parse("007"), Some(Decimal { thousandths: 7_000 }));
}

#[test]
fn rejects_malformed_numbers() {
    assert_eq!(Decimal::parse(""), None);
    assert_eq!(Decimal::parse("."), None);
    assert_eq!(Decimal::parse("5."), None);
    assert_eq!(Decimal::parse(".5"), None);
    assert_eq!(Decimal::parse("-5"), None);
    assert_eq!(Decimal::parse("1e3"), None);
    assert_eq!(Decimal::parse("1.2.3"), None);
    assert_eq!(Decimal::parse("12px"), None);
}

#[test]
fn keeps_numbers_within_range() {
    assert_eq!(Decimal::parse("4294967.295"), Some(Decimal { thousandths: u32::MAX }));
    assert_eq!(Decimal::parse("4294967.296"), None);
    assert_eq!(Decimal::parse("4294968"), None);
    assert_eq!(Decimal::parse("99999999999999999999999999"), None);
}
