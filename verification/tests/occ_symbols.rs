use nonthok_cashflow::calendar::CalendarDate;
use nonthok_cashflow::occ::{parse_occ_expiration, parse_occ_strike, parse_occ_symbol};

#[test]
fn test_parse_occ_symbol() {
    let (exp, contract_type, strike_thousandths) = parse_occ_symbol("BAC260404P00038000").unwrap();
    let strike = strike_thousandths as f64 / 1000.0;
    assert_eq!(exp, CalendarDate::from_ymd_opt(2026, 4, 4).unwrap());
    assert_eq!(contract_type, "put");
    assert!((strike - 38.0).abs() < 1e-9);
}

#[test]
fn test_parse_occ_symbol_call() {
    let (exp, contract_type, strike_thousandths) = parse_occ_symbol("BAC260515C00042000").unwrap();
    let strike = strike_thousandths as f64 / 1000.0;
    assert_eq!(exp, CalendarDate::from_ymd_opt(2026, 5, 15).unwrap());
    assert_eq!(contract_type, "call");
    assert!((strike - 42.0).abs() < 1e-9);
}

#[test]
fn test_parse_occ_expiration() {
    let exp = parse_occ_expiration("BAC260404P00038000").unwrap();
    assert_eq!(exp, CalendarDate::from_ymd_opt(2026, 4, 4).unwrap());
}

#[test]
fn test_parse_occ_expiration_call() {
    let exp = parse_occ_expiration("BAC260515C00042000").unwrap();
    assert_eq!(exp, CalendarDate::from_ymd_opt(2026, 5, 15).unwrap());
}

#[test]
fn test_parse_occ_expiration_equity() {
    // BAC (equity) should return None
    assert!(parse_occ_expiration("BAC").is_none());
}

#[test]
fn occ_symbol_with_fractional_strike() {
    let (_, _, strike) = parse_occ_symbol("SPY240621C00512500").unwrap();
    assert_eq!(strike, 512_500);
}

#[test]
fn occ_symbol_rejects_invalid_date() {
    // February 30th does not exist.
    assert!(parse_occ_symbol("BAC260230P00038000").is_none());
    assert!(parse_occ_expiration("BAC260230P00038000").is_none());
    // Month 13 does not exist.
    assert!(parse_occ_symbol("BAC261301P00038000").is_none());
}

#[test]
fn occ_symbol_rejects_bad_strike_field() {
    // Seven strike digits.
    assert!(parse_occ_symbol("BAC260404P0038000").is_none());
    // A non-digit in the strike.
    assert!(parse_occ_symbol("BAC260404P0003800X").is_none());
    // The expiration alone does not look at the strike.
    assert!(parse_occ_expiration("BAC260404P0003800X").is_some());
}

#[test]
fn occ_symbol_uses_last_type_letter() {
    // "C" in the underlying ("C" is Citigroup) is not the type letter.
    let (exp, contract_type, strike) = parse_occ_symbol("C260116P00070000").unwrap();
    assert_eq!(exp, CalendarDate::from_ymd_opt(2026, 1, 16).unwrap());
    assert_eq!(contract_type, "put");
    assert_eq!(strike, 70_000);
}

#[test]
fn occ_symbol_too_short_prefix() {
    assert!(parse_occ_symbol("60404P00038000").is_none());
    assert!(parse_occ_expiration("").is_none());
}

#[test]
fn occ_fields_accept_plus_sign_like_str_parse() {
    // `"+4".parse::<u32>()` is 4, so a month written "+4" reads as April.
    let exp = parse_occ_expiration("BAC26+404P00038000").unwrap();
    assert_eq!(exp, CalendarDate::from_ymd_opt(2026, 4, 4).unwrap());
    // A sign in the year field is not accepted ("20+6" is no i32).
    assert!(parse_occ_expiration("BAC+60404P00038000").is_none());
}

#[test]
fn occ_strike_alone() {
    assert_eq!(parse_occ_strike("BAC260404P00038000"), Some(38_000));
    // The date field is not examined.
    assert_eq!(parse_occ_strike("BAC261399P00038000"), Some(38_000));
    assert_eq!(parse_occ_strike("BAC260404P0038000"), None);
    assert_eq!(parse_occ_strike("BAC"), None);
}
