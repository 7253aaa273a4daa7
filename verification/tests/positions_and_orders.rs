use nonthok_cashflow::account::{check_options_approval, AccountError};
use nonthok_cashflow::models::{OrderSide, OrderStatus, OrderType, TimeInForce};
use nonthok_cashflow::orders::{
    covered_call_preflight, fill_poll_attempts, fill_progress, limit_price_text,
    option_limit_order, option_market_order, FillProgress, PreflightError,
};
use nonthok_cashflow::positions::{
    detect_wheel_event, share_quantity, watched_option_event, AccountActivity, WheelEvent,
};
use nonthok_cashflow::trading::{order_request_from_signal, SignalError};

fn activity(activity_type: &str, symbol: &str) -> AccountActivity {
    AccountActivity { activity_type: activity_type.to_string(), symbol: symbol.to_string() }
}

#[test]
fn round_lot_of_shares_means_assigned() {
    let acts = vec![activity("OPEXP", "BAC260404P00038000")];
    assert_eq!(detect_wheel_event("BAC", Some("100"), &acts), WheelEvent::Assigned);
    assert_eq!(detect_wheel_event("BAC", Some("250"), &vec![]), WheelEvent::Assigned);
}

#[test]
fn activities_decide_without_shares() {
    let acts = vec![
        activity("FILL", "BAC260404P00038000"),
        activity("OPASN", "SPY260404P00500000"),
        activity("OPEXP", "BAC260404P00038000"),
        activity("OPASN", "BAC260404P00038000"),
    ];
    assert_eq!(detect_wheel_event("BAC", Some("99"), &acts), WheelEvent::Expired);
    assert_eq!(detect_wheel_event("BAC", None, &acts[3..].to_vec()), WheelEvent::Assigned);
    assert_eq!(detect_wheel_event("BAC", None, &vec![activity("OPEXC", "BAC1")]), WheelEvent::Expired);
}

#[test]
fn nothing_found_means_active() {
    assert_eq!(detect_wheel_event("BAC", None, &vec![]), WheelEvent::Active);
    assert_eq!(detect_wheel_event("BAC", Some("abc"), &vec![activity("", "")]), WheelEvent::Active);
}

#[test]
fn share_quantity_defaults_to_zero() {
    assert_eq!(share_quantity("100"), 100);
    assert_eq!(share_quantity("-100"), -100);
    assert_eq!(share_quantity("100.5"), 0);
    assert_eq!(share_quantity(""), 0);
}

#[test]
fn covered_call_needs_a_round_lot() {
    assert_eq!(covered_call_preflight("100"), Ok(100));
    assert_eq!(covered_call_preflight("99"), Err(PreflightError::NotEnoughShares { held: 99 }));
    assert_eq!(covered_call_preflight("n/a"), Err(PreflightError::NotEnoughShares { held: 0 }));
}

#[test]
fn fill_polling_schedule() {
    assert_eq!(fill_poll_attempts(60), 6);
    assert_eq!(fill_poll_attempts(5), 1);
    assert_eq!(fill_poll_attempts(0), 1);
    assert_eq!(fill_poll_attempts(65), 6);
    assert_eq!(fill_progress(OrderStatus::Filled), FillProgress::Filled);
    assert_eq!(fill_progress(OrderStatus::Canceled), FillProgress::Terminal);
    assert_eq!(fill_progress(OrderStatus::Expired), FillProgress::Terminal);
    assert_eq!(fill_progress(OrderStatus::Rejected), FillProgress::Terminal);
    assert_eq!(fill_progress(OrderStatus::PartiallyFilled), FillProgress::Pending);
    assert_eq!(fill_progress(OrderStatus::New), FillProgress::Pending);
}

#[test]
fn option_orders_are_single_contract_day_orders() {
    let limit = option_limit_order("BAC260404P00038000", OrderSide::Sell, limit_price_text(74));
    assert_eq!(limit.symbol, "BAC260404P00038000");
    assert_eq!(limit.qty.as_deref(), Some("1"));
    assert_eq!(limit.order_type, OrderType::Limit);
    assert_eq!(limit.time_in_force, TimeInForce::Day);
    assert_eq!(limit.limit_price.as_deref(), Some("0.74"));
    assert!(limit.notional.is_none() && limit.stop_price.is_none());
    let market = option_market_order("BAC260404P00038000", OrderSide::Buy);
    assert_eq!(market.order_type, OrderType::Market);
    assert_eq!(market.side, OrderSide::Buy);
    assert!(market.limit_price.is_none());
}

#[test]
fn limit_prices_are_written_with_two_decimals() {
    assert_eq!(limit_price_text(0), "0.00");
    assert_eq!(limit_price_text(5), "0.05");
    assert_eq!(limit_price_text(73), "0.73");
    assert_eq!(limit_price_text(381_200), "3812.00");
    assert_eq!(limit_price_text(1_234_567), "12345.67");
}

#[test]
fn options_approval_level() {
    assert_eq!(check_options_approval(Some(2)), Ok(2));
    assert_eq!(check_options_approval(Some(1)), Ok(1));
    assert_eq!(check_options_approval(Some(0)), Err(AccountError::OptionsNotApproved { level: 0 }));
    assert_eq!(check_options_approval(None), Err(AccountError::OptionsNotApproved { level: 0 }));
}

#[test]
fn signals_need_a_size() {
    let r = order_request_from_signal(
        "AAPL".to_string(),
        OrderSide::Buy,
        None,
        None,
        OrderType::Market,
        TimeInForce::Day,
        None,
    );
    assert_eq!(r.unwrap_err(), SignalError::MissingSize);
    let r = order_request_from_signal(
        "AAPL".to_string(),
        OrderSide::Buy,
        None,
        Some("100.00".to_string()),
        OrderType::Market,
        TimeInForce::Day,
        None,
    )
    .unwrap();
    assert_eq!(r.notional.as_deref(), Some("100.00"));
    assert!(r.qty.is_none());
    assert_eq!(r.symbol, "AAPL");
}

#[test]
fn a_vanished_unassigned_option_has_expired() {
    assert_eq!(watched_option_event(WheelEvent::Active, false), WheelEvent::Expired);
    assert_eq!(watched_option_event(WheelEvent::Active, true), WheelEvent::Active);
    assert_eq!(watched_option_event(WheelEvent::Assigned, false), WheelEvent::Assigned);
    assert_eq!(watched_option_event(WheelEvent::Expired, true), WheelEvent::Expired);
}
