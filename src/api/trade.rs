//! Trading calls.
use vstd::prelude::*;

use super::QueryType;
use crate::{OrderSide, OrderStatus, OrderType, TimeInForce};
use rust_decimal::Decimal;

verus! {

/// Asks for the position risk of one symbol, or of all.
#[derive(Debug, Clone, Default)]
pub struct QPositionRisk {
    pub symbol: Option<String>,
}

impl QPositionRisk {
    pub const METHOD: &'static str = "v2/account.position";
    pub const TYPE: QueryType = QueryType::AuthWithoutApiKey;
}

/// Asks for the state of an order.
#[derive(Debug, Clone, Default)]
pub struct QOrderStatus {
    pub symbol: String,
    pub order_id: i64,
    pub orig_client_order_id: Option<String>,
}

impl QOrderStatus {
    pub const METHOD: &'static str = "order.status";
    pub const TYPE: QueryType = QueryType::AuthWithoutApiKey;
}

/// Cancels a spot order.
#[derive(Debug, Clone, Default)]
pub struct CancelOrder {
    pub symbol: String,
    pub order_id: i64,
    pub orig_client_order_id: Option<String>,
    pub new_client_order_id: Option<String>,
    pub cancel_restrictions: Option<CancelRestrictions>,
}

impl CancelOrder {
    pub const METHOD: &'static str = "order.cancel";
    pub const TYPE: QueryType = QueryType::AuthWithoutApiKey;
}

/// Which orders a cancellation may reach.
#[derive(Debug, Clone, Copy, PartialEq, Eq, Structural)]
pub enum CancelRestrictions {
    OnlyNew,
    OnlyPartiallyFilled,
}

/// Cancels a futures order.
#[derive(Debug, Clone, Default)]
pub struct FutureCancelOrder {
    pub symbol: String,
    pub order_id: i64,
    pub orig_client_order_id: Option<String>,
}

impl FutureCancelOrder {
    pub const METHOD: &'static str = "order.cancel";
    pub const TYPE: QueryType = QueryType::AuthWithoutApiKey;
}

/// The side of a futures position.
#[derive(Debug, Clone, Copy, PartialEq, Eq, Structural)]
pub enum PositionSide {
    BOTH,
    LONG,
    SHORT,
}

/// The acknowledgement of a new order.
#[derive(Debug, Clone)]
pub struct OrderAck {
    pub symbol: String,
    pub order_id: i64,
    /// The id of the order list; -1 when the order is in none.
    pub order_list_id: i64,
    pub client_order_id: String,
    pub transact_time: i64,
}

/// The result of a new order, in the shape asked for.
#[derive(Debug, Clone)]
pub enum CreateOrderResponse {
    Ack(OrderAck),
    Result(OrderResult),
    Full(OrderFull),
}

impl CreateOrderResponse {
    /// The id of the order, whatever the shape.
    pub fn order_id(&self) -> (r: i64)
        ensures
            r == match self {
                CreateOrderResponse::Ack(o) => o.order_id,
                CreateOrderResponse::Result(o) => o.order_id,
                CreateOrderResponse::Full(o) => o.order_id,
            },
    {
        match self {
            CreateOrderResponse::Ack(o) => o.order_id,
            CreateOrderResponse::Result(o) => o.order_id,
            CreateOrderResponse::Full(o) => o.order_id,
        }
    }
}

/// The result of a new order.
#[derive(Debug, Clone)]
pub struct OrderResult {
    pub symbol: String,
    pub order_id: i64,
    pub order_list_id: i64,
    pub client_order_id: String,
    pub transact_time: i64,
    pub price: Decimal,
    pub orig_qty: Decimal,
    pub executed_qty: Decimal,
    pub cummulative_quote_qty: Decimal,
    pub status: OrderStatus,
    pub time_in_force: TimeInForce,
    pub order_type: OrderType,
    pub side: OrderSide,
}

/// The full result of a new order, with its fills.
#[derive(Debug, Clone)]
pub struct OrderFull {
    pub symbol: String,
    pub order_id: i64,
    pub order_list_id: i64,
    pub client_order_id: String,
    pub transact_time: i64,
    pub price: Decimal,
    pub orig_qty: Decimal,
    pub executed_qty: Decimal,
    pub cummulative_quote_qty: Decimal,
    pub status: OrderStatus,
    pub time_in_force: TimeInForce,
    pub order_type: OrderType,
    pub side: OrderSide,
    pub fills: Vec<OrderFill>,
}

/// One fill of an order.
#[derive(Debug, Clone)]
pub struct OrderFill {
    pub price: Decimal,
    pub qty: Decimal,
    pub commission: Decimal,
    pub commission_asset: String,
}

} // verus!
