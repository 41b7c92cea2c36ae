//! Account queries.
use vstd::prelude::*;

use super::QueryType;

verus! {

/// Asks for the state of a futures account.
#[derive(Debug, Clone, Default)]
pub struct QV2FutureAccountStatus {}

impl QV2FutureAccountStatus {
    pub const METHOD: &'static str = "v2/account.status";
    pub const TYPE: QueryType = QueryType::AuthWithoutApiKey;
}

/// Asks for the state of a spot account.
#[derive(Debug, Clone)]
pub struct QAccountStatus {
    pub omit_zero_balances: bool,
}

impl QAccountStatus {
    pub const METHOD: &'static str = "account.status";
    pub const TYPE: QueryType = QueryType::AuthWithoutApiKey;
}

impl Default for QAccountStatus {
    /// Zero balances are left out by default.
    fn default() -> (r: Self)
        ensures
            r.omit_zero_balances,
    {
        QAccountStatus { omit_zero_balances: true }
    }
}

} // verus!
