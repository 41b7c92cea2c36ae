//! Calls common to all clients.
use vstd::prelude::*;

use super::QueryType;

verus! {

/// Tests that the API can be reached.
#[derive(Debug, Clone)]
pub struct Ping;

impl Ping {
    pub const METHOD: &'static str = "ping";
    pub const TYPE: QueryType = QueryType::Unauthenticated;
}

/// Asks for the server's time.
#[derive(Debug, Clone)]
pub struct QServerTime;

impl QServerTime {
    pub const METHOD: &'static str = "time";
    pub const TYPE: QueryType = QueryType::Unauthenticated;
}

/// The server's time, in milliseconds.
#[derive(Debug, Clone, Default)]
pub struct ServerTime {
    pub time: i64,
}

/// Asks for trading rules and symbol information: of one symbol, of some
/// symbols, or of the symbols with some permissions.
#[derive(Debug, Clone)]
pub enum QExchangeInfo {
    Symbol(String),
    Symbols(Vec<String>),
    Perm(Vec<String>),
}

impl QExchangeInfo {
    pub const METHOD: &'static str = "exchangeInfo";
    pub const TYPE: QueryType = QueryType::Unauthenticated;
}

} // verus!
