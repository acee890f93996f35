use payrust::models::common::{Currency, Money};
use payrust::text::{i64_to_decimal, parse_u32, u64_to_decimal};

#[test]
fn format_minor_units_supports_zero_and_two_decimals() {
    let usd = Money::from_minor_units(1234, Currency::USD);
    assert_eq!(usd.value, "12.34");

    let jpy = Money::from_minor_units(987, Currency::JPY);
    assert_eq!(jpy.value, "987");
}

#[test]
fn currency_codes_and_decimals() {
    assert_eq!(Currency::USD.as_str(), "USD");
    assert_eq!(Currency::EUR.as_str(), "EUR");
    assert_eq!(Currency::GBP.as_str(), "GBP");
    assert_eq!(Currency::TRY.as_str(), "TRY");
    assert_eq!(Currency::JPY.as_str(), "JPY");
    assert_eq!(Currency::JPY.decimal_places(), 0);
    assert_eq!(Currency::USD.decimal_places(), 2);
    assert_eq!(Currency::EUR.to_string(), "EUR");
}

#[test]
fn from_minor_units_sets_currency_code() {
    let m = Money::from_minor_units(5, Currency::GBP);
    assert_eq!(m.currency_code, "GBP");
    assert_eq!(m.value, "0.05");
}

#[test]
fn format_minor_units_edge_cases() {
    assert_eq!(Money::format_minor_units(0, Currency::USD), "0.00");
    assert_eq!(Money::format_minor_units(100, Currency::USD), "1.00");
    assert_eq!(Money::format_minor_units(-105, Currency::EUR), "-1.05");
    // Between minus one whole unit and zero the sign is lost, as in the truncating division.
    assert_eq!(Money::format_minor_units(-5, Currency::USD), "0.05");
    assert_eq!(Money::format_minor_units(-42, Currency::JPY), "-42");
    assert_eq!(Money::format_minor_units(i64::MIN, Currency::JPY), "-9223372036854775808");
    assert_eq!(Money::format_minor_units(i64::MAX, Currency::USD), "92233720368547758.07");
}

#[test]
fn written_amounts_read_back() {
    for units in [0i64, 7, 99, 100, 1234, 987654, -100, -12345] {
        let text = Money::format_minor_units(units, Currency::USD);
        let digits: String = text.chars().filter(|c| *c != '.').collect();
        assert_eq!(digits.parse::<i64>().unwrap(), units);
        assert_eq!(text.chars().rev().nth(2), Some('.'));
    }
}

#[test]
fn decimal_writing() {
    assert_eq!(u64_to_decimal(0), "0");
    assert_eq!(u64_to_decimal(u64::MAX), "18446744073709551615");
    assert_eq!(i64_to_decimal(-1), "-1");
    assert_eq!(i64_to_decimal(i64::MIN), "-9223372036854775808");
}

#[test]
fn parse_u32_follows_from_str() {
    for s in ["", "+", "-", "-1", "12", "+12", "007", "4294967295", "4294967296", "1a", " 1", "١"] {
        assert_eq!(parse_u32(s), s.parse::<u32>().ok(), "input {:?}", s);
    }
    for q in [0u32, 1, 10, 4294967295] {
        assert_eq!(parse_u32(&u64_to_decimal(q as u64)), Some(q));
    }
}
