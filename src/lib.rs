//! Client engine for a correlated request/response protocol carried over a
//! single, frequently interrupted websocket connection.
//!
//! The engine does no I/O: its state machines say what to do next (connect,
//! write a frame, read one, answer a probe, finish) and take back what
//! became of it.
//!
//! - `engine`: request ids, the buffer of responses that arrive out of
//!   order, and the rule applied to each frame read while awaiting an id.
//! - `executor`: one call at a time, retried once on a fresh connection
//!   after a failure, with a logon after every connection when a credential
//!   is held.
//! - `reconnect`: bounded attempts at acquiring a connection.
//! - `realtime_market`: market-data streams, whose subscriptions are
//!   replayed in one frame on the connection that replaces a failed one.
//! - `pipeline`: calls pipelined on one connection, their responses taken
//!   in order.
//! - `json`: the text of the wire envelopes.
//! - `api`, `rest`: call parameters, results, and the signed logon.
use vstd::prelude::*;

use crate::json::str_eq;

pub mod api;
pub mod engine;
pub mod executor;
pub mod json;
pub mod pipeline;
pub mod realtime_market;
pub mod reconnect;
pub mod rest;

verus! {

/// Relies on time's `OffsetDateTime::now_utc` and `unix_timestamp_nanos`:
/// the wall-clock time, of which nothing is promised.
#[verifier::external_body]
fn now_unix_nanos() -> i128 {
    time::OffsetDateTime::now_utc().unix_timestamp_nanos()
}

/// Milliseconds since the Unix epoch, now; clamped to the range of `i64`.
pub fn millis_ts() -> i64 {
    let ms = now_unix_nanos() / 1_000_000;
    if ms > i64::MAX as i128 {
        i64::MAX
    } else if ms < i64::MIN as i128 {
        i64::MIN
    } else {
        ms as i64
    }
}

/// rust_decimal's `Decimal`, carried through unread: prices and quantities.
#[verifier::external_type_specification]
#[verifier::external_body]
pub struct ExDecimal(rust_decimal::Decimal);

/// Relies on rust_decimal's derived `Clone` for `Decimal`, a `Copy` type:
/// the clone is the value itself.
pub assume_specification[ <rust_decimal::Decimal as Clone>::clone ](d: &rust_decimal::Decimal) -> (r:
    rust_decimal::Decimal)
    ensures
        r == *d,
;

/// The text that `str::to_lowercase` gives.
pub uninterp spec fn lower_of(s: Seq<char>) -> Seq<char>;

/// Relies on std's `str::to_lowercase`: the lower-case form of each
/// character, which depends on the text alone.
#[verifier::external_body]
pub(crate) fn to_lower(s: &str) -> (r: String)
    ensures
        r@ == lower_of(s@),
{
    s.to_lowercase()
}

/// Side of an order.
#[derive(Debug, Clone, Copy, PartialEq, Eq, Structural)]
pub enum OrderSide {
    Buy,
    Sell,
}

impl OrderSide {
    /// The opposite side.
    pub fn rev(&self) -> (r: Self)
        ensures
            r != *self,
    {
        match self {
            OrderSide::Buy => OrderSide::Sell,
            OrderSide::Sell => OrderSide::Buy,
        }
    }

    /// `true` for a buy, `false` for a sell.
    pub fn bool(&self) -> (r: bool)
        ensures
            r == (*self == OrderSide::Buy),
    {
        match self {
            OrderSide::Buy => true,
            OrderSide::Sell => false,
        }
    }
}

/// The side that a text names once lowered: `b` or `buy`, `s` or `sell`.
pub open spec fn side_of(lower: Seq<char>) -> Option<OrderSide> {
    if lower == "b"@ || lower == "buy"@ {
        Some(OrderSide::Buy)
    } else if lower == "s"@ || lower == "sell"@ {
        Some(OrderSide::Sell)
    } else {
        None
    }
}

/// The text `invalid <s>`.
pub open spec fn invalid_text(s: Seq<char>) -> Seq<char> {
    "invalid "@ + s
}

impl OrderSide {
    /// The side that a lower-case text names, if any.
    pub fn parse_lower(lower: &str) -> (r: Option<OrderSide>)
        ensures
            r == side_of(lower@),
    {
        if str_eq(lower, "b") || str_eq(lower, "buy") {
            Some(OrderSide::Buy)
        } else if str_eq(lower, "s") || str_eq(lower, "sell") {
            Some(OrderSide::Sell)
        } else {
            None
        }
    }

    /// The side that `s` names in any case, or the text `invalid <s>`.
    pub fn from_text(s: &str) -> (r: Result<OrderSide, String>)
        ensures
            match side_of(lower_of(s@)) {
                Some(side) => r == Ok::<OrderSide, String>(side),
                None => r matches Err(e) && e@ == invalid_text(s@),
            },
    {
        let lower = to_lower(s);
        match Self::parse_lower(lower.as_str()) {
            Some(side) => Ok(side),
            None => {
                let mut e = String::from_str("invalid ");
                e.append(s);
                Err(e)
            },
        }
    }
}

impl std::str::FromStr for OrderSide {
    type Err = String;

    fn from_str(s: &str) -> Result<OrderSide, String> {
        OrderSide::from_text(s)
    }
}

impl Default for OrderSide {
    fn default() -> (r: Self)
        ensures
            r == OrderSide::Buy,
    {
        OrderSide::Buy
    }
}

/// The type of a futures order.
#[derive(Debug, Clone, Copy, PartialEq, Eq, Structural, Default)]
pub enum FutureOrderType {
    /// A limit order.
    #[default]
    Limit,
    /// A market order.
    Market,
    /// A stop order.
    Stop,
    /// A stop-market order.
    StopMarket,
    /// A take-profit order.
    TakeProfit,
    /// A take-profit market order.
    TakeProfitMarket,
    /// A trailing stop-market order.
    TailingStopMarket,
}

/// The type of a spot order.
#[derive(Debug, Clone, Copy, PartialEq, Eq, Structural)]
pub enum OrderType {
    /// A limit order.
    Limit,
    /// A market order.
    Market,
    /// A stop-loss order.
    StopLoss,
    /// A stop-loss limit order.
    StopLossLimit,
    /// A take-profit order.
    TakeProfit,
    /// A take-profit limit order.
    TakeProfitLimit,
    /// A limit order that only rests on the book.
    LimitMaker,
}

impl Default for OrderType {
    fn default() -> (r: Self)
        ensures
            r == OrderType::Limit,
    {
        OrderType::Limit
    }
}

/// How long an order stays active.
#[derive(Debug, Clone, Copy, PartialEq, Eq, Structural, Default)]
pub enum TimeInForce {
    #[default]
    GTC,
    IOC,
    FOK,
    GTX,
}

/// The state of an order.
#[derive(Debug, Clone, Copy, PartialEq, Eq, Structural, Default)]
pub enum OrderStatus {
    /// Accepted by the engine.
    #[default]
    New,
    /// Partly filled.
    PartiallyFilled,
    /// Fully filled.
    Filled,
    /// Canceled by the user.
    Canceled,
    /// Being canceled (unused).
    PendingCancel,
    /// Rejected.
    Rejected,
    /// Expired under its time-in-force rule.
    Expired,
    /// Expired by self-trade prevention.
    ExpiredInMatch,
}

/// The trading state of a symbol.
#[derive(Debug, Clone, Copy, PartialEq, Eq, Structural)]
pub enum SymbolStatus {
    PreTrading,
    Trading,
    PostTrading,
    EndOfDay,
    HALT,
    AuctionMatch,
    BREAK,
}

/// A permission of an account or symbol.
#[allow(non_snake_case)]
#[derive(Debug, Clone, Copy, PartialEq, Eq, Structural)]
pub enum Permission {
    SPOT,
    MARGIN,
    LEVERAGED,
    TrdGrp002,
    TrdGrp003,
    TrdGrp004,
    TrdGrp005,
    TrdGrp006,
    TrdGrp007,
    TrdGrp008,
    TrdGrp009,
    TrdGrp010,
    TrdGrp011,
    TrdGrp012,
    TrdGrp013,
    TrdGrp014,
    TrdGrp015,
    TrdGrp016,
    TrdGrp017,
    TrdGrp018,
    TrdGrp019,
    TrdGrp020,
    TrdGrp021,
    TrdGrp022,
    TrdGrp023,
    TrdGrp024,
    TrdGrp025,
}

} // verus!
