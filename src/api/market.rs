//! Market-data queries.
use vstd::prelude::*;

use super::QueryType;
use crate::realtime_market::Interval;
use rust_decimal::Decimal;

verus! {

/// Asks for the latest price of one symbol, of some symbols, or of all.
#[derive(Debug, Clone)]
pub enum QLatestPrice {
    Symbol(String),
    Symbols(String),
    All,
}

impl QLatestPrice {
    pub const METHOD: &'static str = "ticker.price";
    pub const TYPE: QueryType = QueryType::Unauthenticated;
}

/// Asks for the order book of a symbol.
#[derive(Debug, Clone)]
pub struct QDepth {
    pub symbol: String,
    pub limit: Option<u64>,
}

impl QDepth {
    pub const METHOD: &'static str = "depth";
    pub const TYPE: QueryType = QueryType::Unauthenticated;
}

/// Asks for the recent trades of a symbol.
#[derive(Debug, Clone)]
pub struct QRecentTrade {
    pub symbol: String,
    pub limit: Option<u64>,
}

impl QRecentTrade {
    pub const METHOD: &'static str = "trades.recent";
    pub const TYPE: QueryType = QueryType::Unauthenticated;
}

/// Asks for older trades of a symbol.
#[derive(Debug, Clone)]
pub struct QHistoryTrade {
    pub symbol: String,
    pub limit: Option<u64>,
    pub from_id: Option<i64>,
}

impl QHistoryTrade {
    pub const METHOD: &'static str = "trades.historical";
    pub const TYPE: QueryType = QueryType::Unauthenticated;
}

/// Asks for aggregate trades of a symbol.
#[derive(Debug, Clone, Default)]
pub struct QAggTrade {
    pub symbol: String,
    pub from_id: Option<i64>,
    pub start_time: Option<i64>,
    pub end_time: Option<i64>,
    pub limit: Option<u64>,
}

/// Asks for the klines of a symbol.
#[derive(Debug, Clone, Default)]
pub struct QKline {
    pub symbol: String,
    pub interval: Interval,
    pub start_time: Option<i64>,
    pub end_time: Option<i64>,
    pub time_zone: Option<String>,
    pub limit: Option<i64>,
}

impl QKline {
    pub const METHOD: &'static str = "klines";
    pub const TYPE: QueryType = QueryType::Unauthenticated;
}

/// Asks for the klines of a symbol, shaped for display.
#[derive(Debug, Clone, Default)]
pub struct QUIKline {
    pub symbol: String,
    pub interval: String,
    pub start_time: Option<i64>,
    pub end_time: Option<i64>,
    pub time_zone: Option<String>,
    pub limit: Option<i64>,
}

impl QUIKline {
    pub const METHOD: &'static str = "uiKlines";
    pub const TYPE: QueryType = QueryType::Unauthenticated;
}

/// Asks for the average price of a symbol.
#[derive(Debug, Clone, Default)]
pub struct QAvgPrice {
    pub symbol: String,
}

impl QAvgPrice {
    pub const METHOD: &'static str = "avgPrice";
    pub const TYPE: QueryType = QueryType::Unauthenticated;
}

/// Asks for the 24-hour ticker of one symbol or of some.
#[derive(Debug, Clone)]
pub enum QMiniTicker {
    Single { symbol: String, ty: MiniTickerType },
    Many { symbols: Vec<String>, ty: MiniTickerType },
}

impl QMiniTicker {
    pub const METHOD: &'static str = "ticker.24hr";
    pub const TYPE: QueryType = QueryType::Unauthenticated;
}

/// How much a 24-hour ticker holds.
#[derive(Debug, Clone, Copy, PartialEq, Eq, Structural)]
pub enum MiniTickerType {
    FULL,
    MINI,
}

/// Asks for the best prices of a symbol's order book.
#[derive(Debug, Clone)]
pub struct QSingleTickerBook {
    pub symbol: String,
}

impl QSingleTickerBook {
    pub const METHOD: &'static str = "ticker.book";
    pub const TYPE: QueryType = QueryType::Unauthenticated;
}

/// Asks for the best prices of every symbol's order book.
#[derive(Debug, Clone)]
pub struct QAllTickerBook {}

impl QAllTickerBook {
    pub const METHOD: &'static str = "ticker.book";
    pub const TYPE: QueryType = QueryType::Unauthenticated;
}

/// The latest price of a symbol.
#[derive(Debug, Clone)]
pub struct LatestPrice {
    pub symbol: String,
    pub price: Decimal,
}

/// The latest price of one symbol, or of several.
#[derive(Debug, Clone)]
pub enum LatestPrices {
    Single(LatestPrice),
    Many(Vec<LatestPrice>),
}

impl LatestPrices {
    /// The prices as a list: one item for a single price.
    pub fn to_list(self) -> (r: Vec<LatestPrice>)
        ensures
            match self {
                LatestPrices::Single(i) => r@ == seq![i],
                LatestPrices::Many(v) => r@ == v@,
            },
    {
        match self {
            LatestPrices::Single(i) => {
                let mut v = Vec::new();
                v.push(i);
                v
            },
            LatestPrices::Many(v) => v,
        }
    }
}

/// A kline: prices, volumes and counts of one interval.
#[derive(Debug, Clone, Default)]
pub struct Kline {
    pub open_time: i64,
    pub open: Decimal,
    pub high: Decimal,
    pub low: Decimal,
    pub close: Decimal,
    pub volume: Decimal,
    pub close_time: i64,
    pub amount: Decimal,
    pub count: usize,
    pub buy_volume: Decimal,
    pub buy_amount: Decimal,
}

} // verus!
