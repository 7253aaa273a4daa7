//! Option order placement: the orders sent, the fill-polling schedule and how an
//! order's status is read, and the pre-flight check before a covered call.
use crate::models::{OrderRequest, OrderSide, OrderStatus, OrderType, TimeInForce};
use crate::positions::{round_lot, share_quantity, spec_share_quantity};
use crate::text::{decimal_text, digit_char};
use vstd::prelude::*;
use vstd::string::StringSliceAdditionalSpecFns;

verus! {

/// Seconds between two polls of an order's status.
pub open spec fn poll_interval_secs() -> u64 {
    10
}

/// How many polls fit in `timeout_secs`, and at least one.
pub fn fill_poll_attempts(timeout_secs: u64) -> (r: u64)
    ensures
        r == if timeout_secs / poll_interval_secs() >= 1 {
            timeout_secs / poll_interval_secs()
        } else {
            1
        },
{
    let n = timeout_secs / 10;
    if n >= 1 {
        n
    } else {
        1
    }
}

/// How a polled order stands.
#[derive(Clone, Copy, Debug, PartialEq, Eq, Structural)]
pub enum FillProgress {
    /// Filled: stop polling and report the fill.
    Filled,
    /// Canceled, expired or rejected: it will never fill.
    Terminal,
    /// Still working: keep polling.
    Pending,
}

pub open spec fn spec_fill_progress(status: OrderStatus) -> FillProgress {
    match status {
        OrderStatus::Filled => FillProgress::Filled,
        OrderStatus::Canceled | OrderStatus::Expired | OrderStatus::Rejected => FillProgress::Terminal,
        _ => FillProgress::Pending,
    }
}

/// Reads a polled order's status.
pub fn fill_progress(status: OrderStatus) -> (r: FillProgress)
    ensures
        r == spec_fill_progress(status),
{
    match status {
        OrderStatus::Filled => FillProgress::Filled,
        OrderStatus::Canceled | OrderStatus::Expired | OrderStatus::Rejected => FillProgress::Terminal,
        _ => FillProgress::Pending,
    }
}

/// The single-contract day order for `symbol`: a limit order at `limit_price` when
/// one is given, a market order otherwise.
pub open spec fn is_single_contract_order(
    r: OrderRequest,
    symbol: Seq<char>,
    side: OrderSide,
    limit_price: Option<String>,
) -> bool {
    &&& r.symbol@ == symbol
    &&& r.qty matches Some(q) && q@ == "1"@
    &&& r.notional is None
    &&& r.side == side
    &&& r.order_type == (if limit_price is Some {
        OrderType::Limit
    } else {
        OrderType::Market
    })
    &&& r.time_in_force == TimeInForce::Day
    &&& r.limit_price == limit_price
    &&& r.stop_price is None
    &&& r.extended_hours is None
    &&& r.client_order_id is None
}

/// The limit order placed first for one option contract.
pub fn option_limit_order(symbol: &str, side: OrderSide, limit_price: String) -> (r: OrderRequest)
    ensures
        is_single_contract_order(r, symbol@, side, Some(limit_price)),
{
    OrderRequest {
        symbol: symbol.to_owned(),
        qty: Some("1".to_owned()),
        notional: None,
        side,
        order_type: OrderType::Limit,
        time_in_force: TimeInForce::Day,
        limit_price: Some(limit_price),
        stop_price: None,
        extended_hours: None,
        client_order_id: None,
    }
}

/// The market order that replaces a limit order left unfilled.
pub fn option_market_order(symbol: &str, side: OrderSide) -> (r: OrderRequest)
    ensures
        is_single_contract_order(r, symbol@, side, None),
{
    OrderRequest {
        symbol: symbol.to_owned(),
        qty: Some("1".to_owned()),
        notional: None,
        side,
        order_type: OrderType::Market,
        time_in_force: TimeInForce::Day,
        limit_price: None,
        stop_price: None,
        extended_hours: None,
        client_order_id: None,
    }
}

/// Which order of the limit-first, market-fallback sequence is working.
#[derive(Clone, Copy, Debug, PartialEq, Eq, Structural)]
pub enum PlacementStage {
    /// The limit order at the quoted mid, placed first.
    Limit,
    /// The market order placed after the limit order went unfilled.
    Market,
}

/// What to do once the working order has been polled.
#[derive(Clone, Copy, Debug, PartialEq, Eq, Structural)]
pub enum PlacementStep {
    /// The order filled: report the fill.
    Done,
    /// The limit order did not fill: cancel it and place a market order.
    CancelThenMarket,
    /// The market order did not fill either: stop with its error, leaving the
    /// wheel state where it was.
    GiveUp,
}

pub open spec fn spec_next_placement_step(stage: PlacementStage, filled: bool) -> PlacementStep {
    if filled {
        PlacementStep::Done
    } else if stage == PlacementStage::Limit {
        PlacementStep::CancelThenMarket
    } else {
        PlacementStep::GiveUp
    }
}

/// The decision after polling the working order: a fill ends the sequence, an
/// unfilled limit order falls back to market, an unfilled market order gives up.
pub fn next_placement_step(stage: PlacementStage, filled: bool) -> (r: PlacementStep)
    ensures
        r == spec_next_placement_step(stage, filled),
{
    if filled {
        PlacementStep::Done
    } else {
        match stage {
            PlacementStage::Limit => PlacementStep::CancelThenMarket,
            PlacementStage::Market => PlacementStep::GiveUp,
        }
    }
}

/// The number of orders placed by a sequence that starts with an order in `stage`
/// and is driven by `next_placement_step`, where `fills` holds the poll outcomes
/// of the orders in the order they were placed (the sequence stops early when
/// outcomes run out).
pub open spec fn orders_placed(stage: PlacementStage, fills: Seq<bool>) -> nat
    decreases fills.len(),
{
    if fills.len() == 0 {
        1
    } else if spec_next_placement_step(stage, fills[0]) == PlacementStep::CancelThenMarket {
        1 + orders_placed(PlacementStage::Market, fills.drop_first())
    } else {
        1
    }
}

/// Whether a sequence that starts with an order in `stage` ends with a fill.
pub open spec fn placement_fills(stage: PlacementStage, fills: Seq<bool>) -> bool
    decreases fills.len(),
{
    if fills.len() == 0 {
        false
    } else {
        match spec_next_placement_step(stage, fills[0]) {
            PlacementStep::Done => true,
            PlacementStep::CancelThenMarket => placement_fills(PlacementStage::Market, fills.drop_first()),
            PlacementStep::GiveUp => false,
        }
    }
}

/// Limit first, market fallback: whatever the polls report, a sequence that starts
/// with the limit order places at most two orders (the market order is never
/// followed by another), and it ends with a fill exactly when the limit order or
/// the market order that replaced it filled.
pub proof fn lemma_at_most_two_orders(fills: Seq<bool>)
    ensures
        orders_placed(PlacementStage::Limit, fills) <= 2,
        forall|filled: bool|
            spec_next_placement_step(PlacementStage::Market, filled) != PlacementStep::CancelThenMarket,
        placement_fills(PlacementStage::Limit, fills) <==> (fills.len() >= 1 && fills[0]) || (
        fills.len() >= 2 && fills[1]),
{
    if fills.len() >= 1 {
        let rest = fills.drop_first();
        assert(orders_placed(PlacementStage::Market, rest) == 1);
        if rest.len() >= 1 {
            assert(rest[0] == fills[1]);
            assert(placement_fills(PlacementStage::Market, rest) == rest[0]);
        } else {
            assert(!placement_fills(PlacementStage::Market, rest));
        }
    }
}

/// Why an order was not placed.
#[derive(Clone, Copy, Debug, PartialEq, Eq, Structural)]
pub enum PreflightError {
    /// Fewer than a round lot of shares of the underlying are held.
    NotEnoughShares { held: i64 },
}

/// The pre-flight check before selling a covered call: the equity position's `qty`
/// must read as at least a round lot (unreadable text counts as none). Returns the
/// share count.
pub fn covered_call_preflight(qty: &str) -> (r: Result<i64, PreflightError>)
    ensures
        ({
            let held = spec_share_quantity(qty.spec_bytes());
            if held >= round_lot() {
                r == Ok::<i64, PreflightError>(held)
            } else {
                r == Err::<i64, PreflightError>(PreflightError::NotEnoughShares { held })
            }
        }),
{
    let held = share_quantity(qty);
    if held < 100 {
        Err(PreflightError::NotEnoughShares { held })
    } else {
        Ok(held)
    }
}

/// The covered-call pre-flight and the assignment check read shares the same way:
/// a position passes the pre-flight exactly when it alone signals an assignment.
pub proof fn lemma_preflight_agrees_with_detection(qty: Seq<u8>, underlying: Seq<u8>)
    ensures
        spec_share_quantity(qty) >= round_lot() <==> crate::positions::spec_detect_wheel_event(
            underlying,
            Some(qty),
            Seq::empty(),
        ) == crate::positions::WheelEvent::Assigned,
{
    assert(crate::positions::first_activity_event(Seq::empty(), underlying) is None);
}

fn digit_text(d: u64) -> (r: &'static str)
    requires
        d < 10,
    ensures
        r@ == seq![digit_char(d as nat)],
{
    proof {
        reveal_strlit("0");
        reveal_strlit("1");
        reveal_strlit("2");
        reveal_strlit("3");
        reveal_strlit("4");
        reveal_strlit("5");
        reveal_strlit("6");
        reveal_strlit("7");
        reveal_strlit("8");
        reveal_strlit("9");
    }
    if d == 0 {
        "0"
    } else if d == 1 {
        "1"
    } else if d == 2 {
        "2"
    } else if d == 3 {
        "3"
    } else if d == 4 {
        "4"
    } else if d == 5 {
        "5"
    } else if d == 6 {
        "6"
    } else if d == 7 {
        "7"
    } else if d == 8 {
        "8"
    } else {
        "9"
    }
}

fn push_decimal(out: &mut String, n: u64)
    ensures
        final(out)@ == old(out)@ + decimal_text(n as nat),
    decreases n,
{
    if n >= 10 {
        push_decimal(out, n / 10);
    }
    out.append(digit_text(n % 10));
    assert(out@ =~= old(out)@ + decimal_text(n as nat));
}

/// A price in cents written as dollars with two decimals, the way limit prices are
/// sent: `73` is `"0.73"`, `3812` is `"38.12"`.
pub open spec fn spec_price_text(cents: nat) -> Seq<char> {
    decimal_text(cents / 100) + seq!['.', digit_char((cents % 100) / 10), digit_char(cents % 10)]
}

/// Writes a limit price given in whole cents (the caller rounds the quoted price to
/// the nearest cent, halves away from zero).
pub fn limit_price_text(cents: u64) -> (r: String)
    ensures
        r@ == spec_price_text(cents as nat),
{
    let mut out = String::new();
    push_decimal(&mut out, cents / 100);
    proof {
        reveal_strlit(".");
    }
    out.append(".");
    out.append(digit_text((cents % 100) / 10));
    out.append(digit_text(cents % 10));
    assert(out@ =~= spec_price_text(cents as nat));
    out
}

/// How a polled status reads: only `Filled` is a fill; only `Canceled`, `Expired`
/// and `Rejected` end the order; every other status (`New`, `Accepted`,
/// `PendingNew`, `PartiallyFilled`, ...) means the order is still working.
pub proof fn lemma_fill_progress_reads_status(status: OrderStatus)
    ensures
        spec_fill_progress(status) == FillProgress::Filled <==> status == OrderStatus::Filled,
        spec_fill_progress(status) == FillProgress::Terminal <==> (status == OrderStatus::Canceled
            || status == OrderStatus::Expired || status == OrderStatus::Rejected),
        spec_fill_progress(status) == FillProgress::Pending <==> (status != OrderStatus::Filled
            && status != OrderStatus::Canceled && status != OrderStatus::Expired && status
            != OrderStatus::Rejected),
{
}

/// The pre-flight in numbers: a covered call needs at least 100 shares held.
pub proof fn lemma_preflight_needs_100_shares(qty: Seq<u8>)
    ensures
        spec_share_quantity(qty) >= round_lot() <==> spec_share_quantity(qty) >= 100,
{
}

/// The polling schedule in numbers: one poll every 10 seconds for the whole
/// timeout, and a single poll when the timeout is shorter than 10 seconds.
pub proof fn lemma_poll_schedule(timeout_secs: u64)
    ensures
        (if timeout_secs / poll_interval_secs() >= 1 {
            timeout_secs / poll_interval_secs()
        } else {
            1
        }) == (if timeout_secs < 10 {
            1
        } else {
            timeout_secs / 10
        }),
{
}

} // verus!
