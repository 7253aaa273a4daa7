//! Broker data: order and position records, and the messages of the streaming API.
use vstd::prelude::*;

verus! {

#[derive(Clone, Copy, Debug, PartialEq, Eq, Structural)]
pub enum OrderSide {
    Buy,
    Sell,
}

#[derive(Clone, Copy, Debug, PartialEq, Eq, Structural)]
pub enum OrderType {
    Market,
    Limit,
    Stop,
    StopLimit,
    TrailingStop,
}

#[derive(Clone, Copy, Debug, PartialEq, Eq, Structural)]
pub enum TimeInForce {
    Day,
    Gtc,
    Opg,
    Cls,
    Ioc,
    Fok,
}

#[derive(Clone, Copy, Debug, PartialEq, Eq, Structural)]
pub enum OrderStatus {
    New,
    PartiallyFilled,
    Filled,
    DoneForDay,
    Canceled,
    Expired,
    Replaced,
    PendingCancel,
    PendingReplace,
    PendingNew,
    Accepted,
    PendingNew2,
    AcceptedForBidding,
    Stopped,
    Rejected,
    Suspended,
    Calculated,
}

/// An order as submitted to the broker. Quantities and prices are decimal text.
#[derive(Clone, Debug)]
pub struct OrderRequest {
    pub symbol: String,
    pub qty: Option<String>,
    pub notional: Option<String>,
    pub side: OrderSide,
    pub order_type: OrderType,
    pub time_in_force: TimeInForce,
    pub limit_price: Option<String>,
    pub stop_price: Option<String>,
    pub extended_hours: Option<bool>,
    pub client_order_id: Option<String>,
}

/// An open position as the broker reports it; every amount is decimal text.
#[derive(Clone, Debug)]
pub struct Position {
    pub asset_id: String,
    pub symbol: String,
    pub exchange: String,
    pub asset_class: String,
    pub avg_entry_price: String,
    pub qty: String,
    pub qty_available: String,
    pub side: String,
    pub market_value: String,
    pub cost_basis: String,
    pub unrealized_pl: String,
    pub unrealized_plpc: String,
    pub unrealized_intraday_pl: String,
    pub unrealized_intraday_plpc: String,
    pub current_price: String,
    pub lastday_price: String,
    pub change_today: String,
}

/// The authentication message of the streaming API.
#[derive(Clone, Debug)]
pub struct WsAuth {
    pub action: String,
    pub key: String,
    pub secret: String,
}

/// The subscription message of the streaming API.
#[derive(Clone, Debug)]
pub struct WsSubscribe {
    pub action: String,
    pub trades: Vec<String>,
    pub quotes: Vec<String>,
    pub bars: Vec<String>,
}

impl WsAuth {
    /// The `auth` message carrying the API key and secret.
    pub fn new(key: String, secret: String) -> (r: WsAuth)
        ensures
            r.action@ == "auth"@,
            r.key == key,
            r.secret == secret,
    {
        WsAuth { action: "auth".to_owned(), key, secret }
    }
}

impl WsSubscribe {
    /// The `subscribe` message for the given trade, quote and bar symbols.
    pub fn new(trades: Vec<String>, quotes: Vec<String>, bars: Vec<String>) -> (r: WsSubscribe)
        ensures
            r.action@ == "subscribe"@,
            r.trades == trades,
            r.quotes == quotes,
            r.bars == bars,
    {
        WsSubscribe { action: "subscribe".to_owned(), trades, quotes, bars }
    }
}

} // verus!
