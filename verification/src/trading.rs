//! Strategy signals turned into broker orders.
use crate::models::{OrderRequest, OrderSide, OrderType, TimeInForce};
use vstd::prelude::*;

verus! {

/// Why a signal cannot become an order.
#[derive(Clone, Copy, Debug, PartialEq, Eq, Structural)]
pub enum SignalError {
    /// The signal gives neither a notional amount nor a quantity.
    MissingSize,
}

/// The order for a signal whose amounts are already written as decimal text
/// (quantity to four places, notional and limit price to two). A signal must give
/// a quantity or a notional amount.
pub fn order_request_from_signal(
    symbol: String,
    side: OrderSide,
    qty: Option<String>,
    notional: Option<String>,
    order_type: OrderType,
    time_in_force: TimeInForce,
    limit_price: Option<String>,
) -> (r: Result<OrderRequest, SignalError>)
    ensures
        (qty is None && notional is None) <==> r is Err,
        r matches Err(e) ==> e == SignalError::MissingSize,
        r matches Ok(o) ==> {
            &&& o.symbol == symbol
            &&& o.qty == qty
            &&& o.notional == notional
            &&& o.side == side
            &&& o.order_type == order_type
            &&& o.time_in_force == time_in_force
            &&& o.limit_price == limit_price
            &&& o.stop_price is None
            &&& o.extended_hours is None
            &&& o.client_order_id is None
        },
{
    if qty.is_none() && notional.is_none() {
        return Err(SignalError::MissingSize);
    }
    Ok(
        OrderRequest {
            symbol,
            qty,
            notional,
            side,
            order_type,
            time_in_force,
            limit_price,
            stop_price: None,
            extended_hours: None,
            client_order_id: None,
        },
    )
}

/// The dry-run executor: it logs signals and never reaches the broker.
#[derive(Debug)]
pub struct PaperExecutor;

} // verus!
