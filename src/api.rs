//! The request/response envelopes, the classification of calls, how call
//! parameters are wrapped, and the errors of a call.
use vstd::prelude::*;

pub mod account;
pub mod common;
pub mod market;
pub mod session;
pub mod trade;
pub mod user_stream;

verus! {

pub const BASE_SPOT_URL: &'static str = "wss://ws-api.binance.com:443/ws-api/v3";
pub const TEST_SPOT_URL: &'static str = "wss://testnet.binance.vision/ws-api/v3";
pub const BASE_FUTURE_URL: &'static str = "wss://ws-fapi.binance.com/ws-fapi/v1";
pub const TEST_FUTURE_URL: &'static str = "wss://testnet.binancefuture.com/ws-fapi/v1";
pub const BACKUP_PORT: u16 = 9443;

/// A request envelope.
#[derive(Debug, Clone)]
pub struct Request<T> {
    pub id: u64,
    pub method: &'static str,
    pub params: T,
    pub return_rate_limits: Option<bool>,
}

/// A successful response envelope, its result decoded.
#[derive(Debug, Clone)]
pub struct Response<T> {
    pub id: i64,
    pub result: T,
    pub rate_limits: Vec<RateLimit>,
}

/// One rate limit reported with a response.
#[derive(Debug, Clone)]
pub struct RateLimit {
    pub rate_limit_type: String,
    pub interval: String,
    pub interval_num: i64,
    pub limit: i64,
    pub count: i64,
}

/// Which authentication fields a call's parameters carry.
#[derive(Debug, Clone, Copy, PartialEq, Eq, Structural)]
pub enum QueryType {
    /// No extra field.
    Unauthenticated,
    /// A timestamp, the receive window and the api key.
    Authorized,
    /// A timestamp and the receive window.
    AuthWithoutApiKey,
}

/// The result of a call that returns nothing of interest.
#[derive(Debug, Clone)]
pub struct EmptyResponse;

/// A call's parameters with the authentication fields of its
/// classification. A field that is `None`, or a timestamp of 0, is left out
/// on the wire.
#[derive(Debug, Clone)]
pub struct ParamWrapper<T> {
    pub recv_window: Option<i64>,
    pub api_key: Option<String>,
    pub timestamp: i64,
    pub other: T,
}

/// ws_tool's `WsError`: why acquiring, writing or reading a connection
/// failed, carried unread.
#[verifier::external_type_specification]
#[verifier::external_body]
pub struct ExWsError(ws_tool::errors::WsError);

/// serde_json's `Error`: why a result could not be decoded, carried unread.
#[verifier::external_type_specification]
#[verifier::external_body]
pub struct ExJsonError(serde_json::Error);

/// The failure of a call.
#[derive(Debug)]
pub enum ClientError {
    /// No connection could be acquired: the error of the acquisition.
    ConnectionFailed(ws_tool::errors::WsError),
    /// A read or write on a live connection failed: its error.
    TransportError(ws_tool::errors::WsError),
    /// The remote side answered with an error envelope: its full text.
    ApiError(String),
    /// A data frame whose header could not be decoded: its text.
    DecodeError(String),
    /// A result that could not be decoded into the shape the call expects,
    /// or parameters that could not be encoded: the decoder's error.
    SerdeError(serde_json::Error),
    /// The credential's signing key could not be read.
    InvalidKey,
}

/// True when a timestamp is left out on the wire.
pub fn is_zero(v: &i64) -> (r: bool)
    ensures
        r == (*v == 0),
{
    *v == 0
}

/// The wrapping of `param` for a call of classification `ty`, made at
/// `timestamp` with this receive window and api key.
pub open spec fn wrapped<P>(
    ty: QueryType,
    param: P,
    recv_window: i64,
    api_key: Seq<char>,
    timestamp: i64,
    r: ParamWrapper<P>,
) -> bool {
    &&& r.other == param
    &&& match ty {
        QueryType::Unauthenticated => r.recv_window is None && r.api_key is None && r.timestamp == 0,
        QueryType::Authorized => {
            &&& r.recv_window == Some(recv_window)
            &&& r.api_key is Some && r.api_key.unwrap()@ == api_key
            &&& r.timestamp == timestamp
        },
        QueryType::AuthWithoutApiKey => {
            &&& r.recv_window == Some(recv_window)
            &&& r.api_key is None
            &&& r.timestamp == timestamp
        },
    }
}

/// Wraps `param` with the fields that `ty` asks for.
pub fn wrap<P>(ty: QueryType, param: P, recv_window: i64, api_key: &str, timestamp: i64) -> (r:
    ParamWrapper<P>)
    ensures
        wrapped(ty, param, recv_window, api_key@, timestamp, r),
{
    match ty {
        QueryType::Unauthenticated => ParamWrapper { recv_window: None, api_key: None, timestamp: 0, other: param },
        QueryType::Authorized => ParamWrapper {
            recv_window: Some(recv_window),
            api_key: Some(String::from_str(api_key)),
            timestamp,
            other: param,
        },
        QueryType::AuthWithoutApiKey => ParamWrapper {
            recv_window: Some(recv_window),
            api_key: None,
            timestamp,
            other: param,
        },
    }
}

} // verus!
