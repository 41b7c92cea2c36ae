//! The user data stream.
use vstd::prelude::*;

use super::QueryType;

verus! {

/// Opens a user data stream.
#[derive(Debug, Clone)]
pub struct StartUserStream {
    pub api_key: String,
}

impl StartUserStream {
    pub const METHOD: &'static str = "userDataStream.start";
    pub const TYPE: QueryType = QueryType::Unauthenticated;
}

/// The key of a user data stream.
#[derive(Debug, Clone)]
pub struct ListenKey {
    pub listen_key: String,
}

/// Keeps a user data stream alive.
#[derive(Debug, Clone)]
pub struct PingUserStream {
    pub api_key: String,
    pub listen_key: String,
}

impl PingUserStream {
    pub const METHOD: &'static str = "userDataStream.ping";
    pub const TYPE: QueryType = QueryType::Unauthenticated;
}

/// Closes a user data stream.
#[derive(Debug, Clone)]
pub struct CloseUserStream {
    pub api_key: String,
    pub listen_key: String,
}

impl CloseUserStream {
    pub const METHOD: &'static str = "userDataStream.close";
    pub const TYPE: QueryType = QueryType::Unauthenticated;
}

} // verus!
