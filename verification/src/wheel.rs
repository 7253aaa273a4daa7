//! The Options Wheel state machine. Each run of the bot looks at the persisted
//! state, performs the action that state calls for, and advances by one step:
//!
//! `Idle -> WatchingCSP -> AssignedLong -> WatchingCC -> Called -> Idle -> ...`
//!
//! with the short cuts documented for the strategy: an expired or profitably
//! closed put returns to `Idle`, an expired or profitably closed call returns to
//! `AssignedLong` (the shares are still held).
use crate::positions::WheelEvent;
use vstd::prelude::*;

verus! {

/// Current state of the Options Wheel cycle. Dollar amounts are kept in cents.
#[derive(Debug)]
pub enum WheelState {
    /// No open position: ready to start a new cycle by selling a cash-secured put.
    Idle,
    /// A cash-secured put was sold; watching it for assignment, expiry or profit.
    WatchingCSP { order_id: String, symbol: String },
    /// Holding the shares the put was assigned into, bought at `entry_cost_cents`.
    AssignedLong { entry_cost_cents: i64 },
    /// A covered call was sold against the shares; watching it.
    WatchingCC { order_id: String, symbol: String },
    /// The shares were called away: the cycle is complete.
    Called { realized_pnl_cents: i64 },
}

impl Default for WheelState {
    fn default() -> (r: Self)
        ensures
            r is Idle,
    {
        WheelState::Idle
    }
}

/// What a state asks the bot to do on this run.
#[derive(Debug)]
pub enum WheelAction {
    /// Select and sell a cash-secured put.
    SellPut,
    /// Check the short put `symbol` for assignment, expiry or the profit target.
    MonitorPut { symbol: String },
    /// Select and sell a covered call against the shares held.
    SellCall,
    /// Check the short call `symbol` for assignment, expiry or the profit target.
    MonitorCall { symbol: String },
    /// Nothing to trade: the completed cycle starts over.
    StartOver,
}

/// What the bot observed after performing the action of this run.
#[derive(Debug)]
pub enum StepOutcome {
    /// The opening sell order (a put when idle, a call when holding shares) filled.
    OrderFilled { order_id: String, symbol: String },
    /// No opening order filled on this run.
    NoFill,
    /// The result of monitoring the short option. `closed_for_profit` is set when the
    /// option was bought back at the profit target. `amount_cents` is the dollar
    /// amount the next state records: the cost of the shares now held (a put
    /// assigned, or a call that expired or was closed), or the realized profit and
    /// loss of the cycle (a call assigned).
    Monitored { event: WheelEvent, closed_for_profit: bool, amount_cents: i64 },
}

/// The action each state calls for.
pub open spec fn spec_next_action(state: WheelState) -> WheelAction {
    match state {
        WheelState::Idle => WheelAction::SellPut,
        WheelState::WatchingCSP { order_id, symbol } => WheelAction::MonitorPut { symbol },
        WheelState::AssignedLong { .. } => WheelAction::SellCall,
        WheelState::WatchingCC { order_id, symbol } => WheelAction::MonitorCall { symbol },
        WheelState::Called { .. } => WheelAction::StartOver,
    }
}

/// The state after one run, from the state before it and what the run observed.
pub open spec fn spec_step(state: WheelState, outcome: StepOutcome) -> WheelState {
    match state {
        WheelState::Idle => match outcome {
            StepOutcome::OrderFilled { order_id, symbol } => WheelState::WatchingCSP {
                order_id,
                symbol,
            },
            _ => WheelState::Idle,
        },
        WheelState::WatchingCSP { order_id, symbol } => match outcome {
            StepOutcome::Monitored { event, closed_for_profit, amount_cents } => match event {
                WheelEvent::Assigned => WheelState::AssignedLong { entry_cost_cents: amount_cents },
                WheelEvent::Expired => WheelState::Idle,
                WheelEvent::Active => if closed_for_profit {
                    WheelState::Idle
                } else {
                    WheelState::WatchingCSP { order_id, symbol }
                },
            },
            _ => WheelState::WatchingCSP { order_id, symbol },
        },
        WheelState::AssignedLong { entry_cost_cents } => match outcome {
            StepOutcome::OrderFilled { order_id, symbol } => WheelState::WatchingCC {
                order_id,
                symbol,
            },
            _ => WheelState::AssignedLong { entry_cost_cents },
        },
        WheelState::WatchingCC { order_id, symbol } => match outcome {
            StepOutcome::Monitored { event, closed_for_profit, amount_cents } => match event {
                WheelEvent::Assigned => WheelState::Called { realized_pnl_cents: amount_cents },
                WheelEvent::Expired => WheelState::AssignedLong { entry_cost_cents: amount_cents },
                WheelEvent::Active => if closed_for_profit {
                    WheelState::AssignedLong { entry_cost_cents: amount_cents }
                } else {
                    WheelState::WatchingCC { order_id, symbol }
                },
            },
            _ => WheelState::WatchingCC { order_id, symbol },
        },
        WheelState::Called { .. } => WheelState::Idle,
    }
}

/// The action the current state calls for on this run.
pub fn next_action(state: &WheelState) -> (r: WheelAction)
    ensures
        r == spec_next_action(*state),
{
    match state {
        WheelState::Idle => WheelAction::SellPut,
        WheelState::WatchingCSP { symbol, .. } => WheelAction::MonitorPut { symbol: symbol.clone() },
        WheelState::AssignedLong { .. } => WheelAction::SellCall,
        WheelState::WatchingCC { symbol, .. } => WheelAction::MonitorCall { symbol: symbol.clone() },
        WheelState::Called { .. } => WheelAction::StartOver,
    }
}

/// Advance the wheel state machine by one step.
pub fn step(state: WheelState, outcome: StepOutcome) -> (r: WheelState)
    ensures
        r == spec_step(state, outcome),
{
    match state {
        WheelState::Idle => match outcome {
            StepOutcome::OrderFilled { order_id, symbol } => WheelState::WatchingCSP {
                order_id,
                symbol,
            },
            _ => WheelState::Idle,
        },
        WheelState::WatchingCSP { order_id, symbol } => match outcome {
            StepOutcome::Monitored { event, closed_for_profit, amount_cents } => match event {
                WheelEvent::Assigned => WheelState::AssignedLong { entry_cost_cents: amount_cents },
                WheelEvent::Expired => WheelState::Idle,
                WheelEvent::Active => if closed_for_profit {
                    WheelState::Idle
                } else {
                    WheelState::WatchingCSP { order_id, symbol }
                },
            },
            _ => WheelState::WatchingCSP { order_id, symbol },
        },
        WheelState::AssignedLong { entry_cost_cents } => match outcome {
            StepOutcome::OrderFilled { order_id, symbol } => WheelState::WatchingCC {
                order_id,
                symbol,
            },
            _ => WheelState::AssignedLong { entry_cost_cents },
        },
        WheelState::WatchingCC { order_id, symbol } => match outcome {
            StepOutcome::Monitored { event, closed_for_profit, amount_cents } => match event {
                WheelEvent::Assigned => WheelState::Called { realized_pnl_cents: amount_cents },
                WheelEvent::Expired => WheelState::AssignedLong { entry_cost_cents: amount_cents },
                WheelEvent::Active => if closed_for_profit {
                    WheelState::AssignedLong { entry_cost_cents: amount_cents }
                } else {
                    WheelState::WatchingCC { order_id, symbol }
                },
            },
            _ => WheelState::WatchingCC { order_id, symbol },
        },
        WheelState::Called { .. } => WheelState::Idle,
    }
}

/// The documented edges of the wheel: every step either stays put or follows one.
pub open spec fn is_wheel_transition(before: WheelState, after: WheelState) -> bool {
    ||| before == after
    ||| before is Idle && after is WatchingCSP
    ||| before is WatchingCSP && (after is Idle || after is AssignedLong)
    ||| before is AssignedLong && after is WatchingCC
    ||| before is WatchingCC && (after is AssignedLong || after is Called)
    ||| before is Called && after is Idle
}

/// Every step follows an edge of the wheel; a completed cycle always restarts.
pub proof fn lemma_step_follows_wheel(state: WheelState, outcome: StepOutcome)
    ensures
        is_wheel_transition(state, spec_step(state, outcome)),
        state is Called ==> spec_step(state, outcome) is Idle,
{
}

/// A run that fills no order and finds the watched option still open, short of the
/// profit target, leaves any state but `Called` unchanged.
pub proof fn lemma_quiet_run_keeps_state(state: WheelState, amount_cents: i64)
    requires
        !(state is Called),
    ensures
        spec_step(state, StepOutcome::NoFill) == state,
        spec_step(
            state,
            StepOutcome::Monitored {
                event: WheelEvent::Active,
                closed_for_profit: false,
                amount_cents,
            },
        ) == state,
{
}

/// Taking the profit target on a short put ends the cycle; on a short call it keeps
/// the shares and sells another call next.
pub proof fn lemma_profit_target_exits(
    order_id: String,
    symbol: String,
    amount_cents: i64,
)
    ensures
        spec_step(
            WheelState::WatchingCSP { order_id, symbol },
            StepOutcome::Monitored {
                event: WheelEvent::Active,
                closed_for_profit: true,
                amount_cents,
            },
        ) is Idle,
        spec_step(
            WheelState::WatchingCC { order_id, symbol },
            StepOutcome::Monitored {
                event: WheelEvent::Active,
                closed_for_profit: true,
                amount_cents,
            },
        ) == (WheelState::AssignedLong { entry_cost_cents: amount_cents }),
{
}

/// A full wheel: a put fills, is assigned, a call fills, the shares are called away,
/// and the next run is back at `Idle`, passing through the four documented states.
pub proof fn lemma_full_cycle(
    put_order: String,
    put_symbol: String,
    entry_cost_cents: i64,
    call_order: String,
    call_symbol: String,
    realized_pnl_cents: i64,
    last: StepOutcome,
)
    ensures
        ({
            let s1 = spec_step(
                WheelState::Idle,
                StepOutcome::OrderFilled { order_id: put_order, symbol: put_symbol },
            );
            let s2 = spec_step(
                s1,
                StepOutcome::Monitored {
                    event: WheelEvent::Assigned,
                    closed_for_profit: false,
                    amount_cents: entry_cost_cents,
                },
            );
            let s3 = spec_step(
                s2,
                StepOutcome::OrderFilled { order_id: call_order, symbol: call_symbol },
            );
            let s4 = spec_step(
                s3,
                StepOutcome::Monitored {
                    event: WheelEvent::Assigned,
                    closed_for_profit: false,
                    amount_cents: realized_pnl_cents,
                },
            );
            &&& s1 == (WheelState::WatchingCSP { order_id: put_order, symbol: put_symbol })
            &&& s2 == (WheelState::AssignedLong { entry_cost_cents })
            &&& s3 == (WheelState::WatchingCC { order_id: call_order, symbol: call_symbol })
            &&& s4 == (WheelState::Called { realized_pnl_cents })
            &&& spec_step(s4, last) is Idle
        }),
{
}

/// Each state's action matches the state: sell when flat or holding shares, monitor
/// the very option being watched, start over after a completed cycle.
pub proof fn lemma_action_matches_state(state: WheelState)
    ensures
        state is Idle <==> spec_next_action(state) is SellPut,
        state is AssignedLong <==> spec_next_action(state) is SellCall,
        state is Called <==> spec_next_action(state) is StartOver,
        state matches WheelState::WatchingCSP { symbol, .. } ==> spec_next_action(state)
            == (WheelAction::MonitorPut { symbol }),
        state matches WheelState::WatchingCC { symbol, .. } ==> spec_next_action(state)
            == (WheelAction::MonitorCall { symbol }),
{
}

/// What monitoring decides: an assigned put leaves the shares held at the recorded
/// cost, an expired put ends the cycle; an assigned call completes the cycle with
/// the recorded profit and loss, an expired call keeps the shares (at the recorded
/// cost) to sell another call; an opening fill starts watching that very option.
pub proof fn lemma_monitored_events(
    order_id: String,
    symbol: String,
    closed_for_profit: bool,
    amount_cents: i64,
    entry_cost_cents: i64,
)
    ensures
        spec_step(
            WheelState::WatchingCSP { order_id, symbol },
            StepOutcome::Monitored { event: WheelEvent::Assigned, closed_for_profit, amount_cents },
        ) == (WheelState::AssignedLong { entry_cost_cents: amount_cents }),
        spec_step(
            WheelState::WatchingCSP { order_id, symbol },
            StepOutcome::Monitored { event: WheelEvent::Expired, closed_for_profit, amount_cents },
        ) == WheelState::Idle,
        spec_step(
            WheelState::WatchingCC { order_id, symbol },
            StepOutcome::Monitored { event: WheelEvent::Assigned, closed_for_profit, amount_cents },
        ) == (WheelState::Called { realized_pnl_cents: amount_cents }),
        spec_step(
            WheelState::WatchingCC { order_id, symbol },
            StepOutcome::Monitored { event: WheelEvent::Expired, closed_for_profit, amount_cents },
        ) == (WheelState::AssignedLong { entry_cost_cents: amount_cents }),
        spec_step(WheelState::Idle, StepOutcome::OrderFilled { order_id, symbol })
            == (WheelState::WatchingCSP { order_id, symbol }),
        spec_step(
            WheelState::AssignedLong { entry_cost_cents },
            StepOutcome::OrderFilled { order_id, symbol },
        ) == (WheelState::WatchingCC { order_id, symbol }),
{
}

/// Holding shares, a run without an opening fill keeps them at the same cost; an
/// idle run without a fill stays idle, whatever was observed.
pub proof fn lemma_no_fill_keeps_position(outcome: StepOutcome, entry_cost_cents: i64)
    requires
        !(outcome is OrderFilled),
    ensures
        spec_step(WheelState::AssignedLong { entry_cost_cents }, outcome)
            == (WheelState::AssignedLong { entry_cost_cents }),
        spec_step(WheelState::Idle, outcome) == WheelState::Idle,
{
}

} // verus!
