use vstd::prelude::*;

verus! {

/// `infra_type` of a login to the order plant.
pub const INFRA_ORDER_PLANT: i32 = 2;

/// `price_type` of a market order.
pub const PRICE_TYPE_MARKET: i32 = 2;

/// `price_type` of a stop-limit order.
pub const PRICE_TYPE_STOP_LIMIT: i32 = 3;

/// `price_type` of a stop-market order.
pub const PRICE_TYPE_STOP_MARKET: i32 = 4;

/// `transaction_type` of a buy.
pub const TRANSACTION_BUY: i32 = 1;

/// `transaction_type` of a sell.
pub const TRANSACTION_SELL: i32 = 2;

/// `duration` of a day order, the default of a new order.
pub const DURATION_DAY: i32 = 1;

/// `manual_or_auto` of every order-bearing request: automated.
pub const MANUAL_OR_AUTO_AUTO: i32 = 2;

/// `bracket_type` of a bracket order with both a target and a stop.
pub const BRACKET_TYPE_TARGET_AND_STOP: i32 = 6;

/// `pattern` of a symbol search for an exact match.
pub const SEARCH_PATTERN_EQUALS: i32 = 1;

/// `pattern` of a symbol search for a partial match.
pub const SEARCH_PATTERN_CONTAINS: i32 = 2;

/// Immutable per-connection configuration.
#[derive(Debug, Clone)]
pub struct RithmicConnectionInfo {
    pub url: String,
    pub system_name: String,
    pub user: String,
    pub password: String,
}

/// A parent order with a profit target and a stop loss, sized in ticks.
/// `price` is the bit pattern of the limit price as an IEEE-754 double.
#[derive(Debug, Clone)]
pub struct RithmicBracketOrder {
    pub action: i32,
    pub duration: i32,
    pub exchange: String,
    pub localid: String,
    pub ordertype: i32,
    pub price: Option<u64>,
    pub profit_ticks: i32,
    pub qty: i32,
    pub stop_ticks: i32,
    pub symbol: String,
}

/// A change to a working order; `price` is the bit pattern of an IEEE-754 double.
#[derive(Debug, Clone)]
pub struct RithmicModifyOrder {
    pub id: String,
    pub exchange: String,
    pub symbol: String,
    pub qty: i32,
    pub price: u64,
    pub ordertype: i32,
}

/// The cancellation of a working order, by its basket id.
#[derive(Debug, Clone)]
pub struct RithmicCancelOrder {
    pub id: String,
}

} // verus!
