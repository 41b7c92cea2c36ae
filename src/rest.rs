//! Queries of the HTTP API.
use vstd::prelude::*;

use crate::realtime_market::Interval;

verus! {

/// Asks for the klines of a futures symbol.
#[derive(Debug, Clone, Default)]
pub struct QKline {
    pub symbol: String,
    pub interval: Interval,
    pub start_time: Option<i64>,
    pub end_time: Option<i64>,
    pub limit: Option<i64>,
}

} // verus!
