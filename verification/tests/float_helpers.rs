use nonthok_cashflow::orders::limit_price_text;

#[test]
fn test_required_buying_power() {
    let strike = 38.0_f64;
    let required = strike * 100.0;
    assert!((required - 3800.0).abs() < 1e-9);
}

#[test]
fn test_limit_price_format() {
    let price = 0.725_f64;
    let formatted = limit_price_text((price * 100.0).round() as u64);
    assert_eq!(formatted, "0.73");
}

#[test]
fn test_unrealized_plpc_threshold() {
    // 50% profit threshold
    let unrealized_plpc = 0.51_f64;
    assert!(unrealized_plpc >= 0.50);
}
