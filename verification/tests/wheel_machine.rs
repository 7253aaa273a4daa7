use nonthok_cashflow::positions::WheelEvent;
use nonthok_cashflow::wheel::{next_action, step, StepOutcome, WheelAction, WheelState};

fn filled(order_id: &str, symbol: &str) -> StepOutcome {
    StepOutcome::OrderFilled { order_id: order_id.to_string(), symbol: symbol.to_string() }
}

fn monitored(event: WheelEvent, closed_for_profit: bool, amount_cents: i64) -> StepOutcome {
    StepOutcome::Monitored { event, closed_for_profit, amount_cents }
}

#[test]
fn default_state_is_idle() {
    assert!(matches!(WheelState::default(), WheelState::Idle));
}

#[test]
fn full_wheel_cycle_returns_to_idle() {
    let s = step(WheelState::Idle, filled("abc123", "BAC260404P00038000"));
    match &s {
        WheelState::WatchingCSP { order_id, symbol } => {
            assert_eq!(order_id, "abc123");
            assert_eq!(symbol, "BAC260404P00038000");
        }
        other => panic!("unexpected {:?}", other),
    }
    let s = step(s, monitored(WheelEvent::Assigned, false, 381_200));
    assert!(matches!(s, WheelState::AssignedLong { entry_cost_cents: 381_200 }));
    let s = step(s, filled("xyz789", "BAC260515C00042000"));
    assert!(matches!(s, WheelState::WatchingCC { .. }));
    let s = step(s, monitored(WheelEvent::Assigned, false, 45_000));
    assert!(matches!(s, WheelState::Called { realized_pnl_cents: 45_000 }));
    let s = step(s, StepOutcome::NoFill);
    assert!(matches!(s, WheelState::Idle));
}

#[test]
fn expired_put_returns_to_idle() {
    let s = WheelState::WatchingCSP { order_id: "a".into(), symbol: "BAC260404P00038000".into() };
    assert!(matches!(step(s, monitored(WheelEvent::Expired, false, 0)), WheelState::Idle));
}

#[test]
fn put_closed_for_profit_returns_to_idle() {
    let s = WheelState::WatchingCSP { order_id: "a".into(), symbol: "BAC260404P00038000".into() };
    assert!(matches!(step(s, monitored(WheelEvent::Active, true, 0)), WheelState::Idle));
}

#[test]
fn open_put_stays_watched() {
    let s = WheelState::WatchingCSP { order_id: "a".into(), symbol: "P".into() };
    match step(s, monitored(WheelEvent::Active, false, 0)) {
        WheelState::WatchingCSP { order_id, symbol } => {
            assert_eq!(order_id, "a");
            assert_eq!(symbol, "P");
        }
        other => panic!("unexpected {:?}", other),
    }
}

#[test]
fn expired_or_closed_call_keeps_shares() {
    let s = WheelState::WatchingCC { order_id: "c".into(), symbol: "C".into() };
    assert!(matches!(
        step(s, monitored(WheelEvent::Expired, false, 381_200)),
        WheelState::AssignedLong { entry_cost_cents: 381_200 }
    ));
    let s = WheelState::WatchingCC { order_id: "c".into(), symbol: "C".into() };
    assert!(matches!(
        step(s, monitored(WheelEvent::Active, true, 381_200)),
        WheelState::AssignedLong { entry_cost_cents: 381_200 }
    ));
}

#[test]
fn no_fill_keeps_state() {
    assert!(matches!(step(WheelState::Idle, StepOutcome::NoFill), WheelState::Idle));
    assert!(matches!(
        step(WheelState::AssignedLong { entry_cost_cents: 7 }, StepOutcome::NoFill),
        WheelState::AssignedLong { entry_cost_cents: 7 }
    ));
}

#[test]
fn called_always_restarts() {
    let s = WheelState::Called { realized_pnl_cents: -10 };
    assert!(matches!(step(s, filled("o", "s")), WheelState::Idle));
}

#[test]
fn actions_follow_state() {
    assert!(matches!(next_action(&WheelState::Idle), WheelAction::SellPut));
    assert!(matches!(
        next_action(&WheelState::AssignedLong { entry_cost_cents: 1 }),
        WheelAction::SellCall
    ));
    match next_action(&WheelState::WatchingCSP { order_id: "o".into(), symbol: "P1".into() }) {
        WheelAction::MonitorPut { symbol } => assert_eq!(symbol, "P1"),
        other => panic!("unexpected {:?}", other),
    }
    match next_action(&WheelState::WatchingCC { order_id: "o".into(), symbol: "C1".into() }) {
        WheelAction::MonitorCall { symbol } => assert_eq!(symbol, "C1"),
        other => panic!("unexpected {:?}", other),
    }
    assert!(matches!(
        next_action(&WheelState::Called { realized_pnl_cents: 0 }),
        WheelAction::StartOver
    ));
}
