use nonthok_cashflow::config::{
    check_credentials, default_log_level, default_max_positions, default_true, dte_window, ConfigError,
};
use nonthok_cashflow::iv_gate::{gate_for_history, gate_passes, iv_entry_favorable, IvGate, PercentileRank};
use nonthok_cashflow::models::{WsAuth, WsSubscribe};
use nonthok_cashflow::rest::{
    cancel_all_accepted, check_response, data_base_url, data_base_url_beta, missing_quote_failure,
    order_cancel_accepted, trading_base_url, ApiFailure,
};
use nonthok_cashflow::ws::AlpacaWsClient;

#[test]
fn configuration_defaults() {
    assert!(default_true());
    assert_eq!(default_max_positions(), 5);
    assert_eq!(default_log_level(), "info");
}

#[test]
fn credentials_are_checked_in_order() {
    assert_eq!(check_credentials(None, None), Err(ConfigError::ApiKeyMissing));
    assert_eq!(check_credentials(Some(""), Some("s")), Err(ConfigError::ApiKeyEmpty));
    assert_eq!(check_credentials(Some("k"), None), Err(ConfigError::ApiSecretMissing));
    assert_eq!(check_credentials(Some("k"), Some("")), Err(ConfigError::ApiSecretEmpty));
    assert_eq!(check_credentials(Some("k"), Some("s")), Ok(()));
}

#[test]
fn dte_window_defaults_and_checks() {
    assert_eq!(dte_window(None, None), Ok((21, 30)));
    assert_eq!(dte_window(Some("7"), Some("14")), Ok((7, 14)));
    assert_eq!(dte_window(Some("x"), Some("14")), Err(ConfigError::DteMinInvalid));
    assert_eq!(dte_window(Some("7"), Some("-1")), Err(ConfigError::DteMaxInvalid));
    assert_eq!(dte_window(Some("30"), Some("30")), Err(ConfigError::DteWindowInverted { min: 30, max: 30 }));
    assert_eq!(dte_window(Some("40"), None), Err(ConfigError::DteWindowInverted { min: 40, max: 30 }));
}

#[test]
fn iv_gates() {
    assert_eq!(gate_for_history(0), IvGate::Hv30Bootstrap);
    assert_eq!(gate_for_history(251), IvGate::Hv30Bootstrap);
    assert_eq!(gate_for_history(252), IvGate::TrueIvp);
    assert!(gate_passes(IvGate::Hv30Bootstrap, 0, 0));
    assert!(gate_passes(IvGate::Hv30Bootstrap, 35, 100));
    assert!(!gate_passes(IvGate::Hv30Bootstrap, 34, 100));
    assert!(gate_passes(IvGate::TrueIvp, 30, 100));
    assert!(!gate_passes(IvGate::TrueIvp, 29, 100));
    // 7 of 20 is exactly 35%.
    assert!(gate_passes(IvGate::Hv30Bootstrap, 7, 20));
    assert!(iv_entry_favorable(300, None));
    // Whatever passes the bootstrap test passes the true-IVP test; a higher rank
    // never fails where a lower one passed.
    assert!(gate_passes(IvGate::TrueIvp, 35, 100));
    assert!(gate_passes(IvGate::Hv30Bootstrap, 36, 100));
}

#[test]
fn test_is_iv_favorable_bootstrap_no_history_allows_entry() {
    // No rows at all: the bootstrap gate applies, and nothing was captured today.
    assert_eq!(gate_for_history(0), IvGate::Hv30Bootstrap);
    assert!(iv_entry_favorable(0, None));
}

#[test]
fn test_ivp_no_history_allows_entry() {
    // A year of rows puts the true-IVP gate in force; no IV30 was captured today.
    assert_eq!(gate_for_history(252), IvGate::TrueIvp);
    assert!(iv_entry_favorable(252, None));
}

#[test]
fn iv_gate_bootstrap_with_empty_history_passes() {
    // Today's HV30 is known but there is no past value to rank it against.
    assert!(iv_entry_favorable(0, Some(PercentileRank { below: 0, len: 0 })));
    assert!(iv_entry_favorable(252, Some(PercentileRank { below: 0, len: 0 })));
}

#[test]
fn iv_gate_bootstrap_high_hv_passes() {
    // 100 past HV30 values in [0.10, 0.30); today's 0.25.
    let past: Vec<f64> = (0..100).map(|i| 0.10 + i as f64 * 0.002).collect();
    let below = past.iter().filter(|&&hv| hv < 0.25).count();
    assert!(iv_entry_favorable(100, Some(PercentileRank { below, len: past.len() })));
}

#[test]
fn iv_gate_bootstrap_low_hv_fails() {
    let past: Vec<f64> = (0..100).map(|i| 0.30 + i as f64 * 0.002).collect();
    let below = past.iter().filter(|&&hv| hv < 0.31).count();
    assert!(!iv_entry_favorable(100, Some(PercentileRank { below, len: past.len() })));
}

#[test]
fn iv_gate_true_ivp() {
    let high: Vec<f64> = (0..252).map(|i| 0.15 + i as f64 * (0.25 / 252.0)).collect();
    let below = high.iter().filter(|&&iv| iv < 0.35).count();
    assert!(iv_entry_favorable(252, Some(PercentileRank { below, len: 252 })));
    let low: Vec<f64> = (0..252).map(|i| 0.35 + i as f64 * (0.25 / 252.0)).collect();
    let below = low.iter().filter(|&&iv| iv < 0.20).count();
    assert!(!iv_entry_favorable(252, Some(PercentileRank { below, len: 252 })));
}

#[test]
fn endpoints() {
    assert_eq!(trading_base_url(true), "https://paper-api.alpaca.markets/v2");
    assert_eq!(trading_base_url(false), "https://api.alpaca.markets/v2");
    assert_eq!(data_base_url(), "https://data.alpaca.markets/v2");
    assert_eq!(data_base_url_beta(), "https://data.alpaca.markets/v1beta1");
}

#[test]
fn responses_are_classified() {
    assert!(matches!(check_response(429, None), Err(ApiFailure::RateLimit)));
    assert!(check_response(404, None).is_ok());
    assert!(check_response(200, Some("{}")).is_ok());
    match check_response(403, Some(r#"{"code":40310000,"message":"forbidden"}"#)) {
        Err(ApiFailure::Api { status, message }) => {
            assert_eq!(status, 403);
            assert_eq!(message, "forbidden");
        }
        other => panic!("unexpected {:?}", other),
    }
    match check_response(500, Some("upstream down")) {
        Err(ApiFailure::Api { status, message }) => {
            assert_eq!(status, 500);
            assert_eq!(message, "upstream down");
        }
        other => panic!("unexpected {:?}", other),
    }
    match missing_quote_failure("BAC") {
        ApiFailure::Api { status, message } => {
            assert_eq!(status, 200);
            assert_eq!(message, "No quote returned for BAC");
        }
        other => panic!("unexpected {:?}", other),
    }
    assert!(order_cancel_accepted(204));
    assert!(!order_cancel_accepted(200));
    assert!(cancel_all_accepted(200) && cancel_all_accepted(207));
    assert!(!cancel_all_accepted(204));
}

#[test]
fn streaming_client_and_messages() {
    let paper = AlpacaWsClient::new("k".to_string(), "s".to_string(), true);
    assert_eq!(paper.url(), "wss://stream.data.alpaca.markets/v2/iex");
    assert_eq!(paper.api_key(), "k");
    assert_eq!(paper.api_secret(), "s");
    let live = AlpacaWsClient::new("k".to_string(), "s".to_string(), false);
    assert_eq!(live.url(), "wss://stream.data.alpaca.markets/v2/sip");
    let auth = WsAuth::new("k".to_string(), "s".to_string());
    assert_eq!(auth.action, "auth");
    let sub = WsSubscribe::new(vec!["BAC".to_string()], vec![], vec![]);
    assert_eq!(sub.action, "subscribe");
    assert_eq!(sub.trades, vec!["BAC".to_string()]);
}
