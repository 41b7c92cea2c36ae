use binance_ws::api::account::QAccountStatus;
use binance_ws::api::common::Ping;
use binance_ws::api::market::{LatestPrice, LatestPrices};
use binance_ws::api::trade::{CreateOrderResponse, OrderAck};
use rust_decimal::Decimal;
use binance_ws::api::{is_zero, wrap, QueryType};
use binance_ws::reconnect::{AcquireStep, ReconnectPolicy};
use binance_ws::{OrderSide, OrderType, TimeInForce};

#[test]
fn order_side_parsing_and_reversal() {
    assert_eq!("BUY".parse::<OrderSide>(), Ok(OrderSide::Buy));
    assert_eq!(OrderSide::from_text("s"), Ok(OrderSide::Sell));
    assert_eq!(OrderSide::from_text("Sell"), Ok(OrderSide::Sell));
    assert_eq!(OrderSide::from_text("hold"), Err("invalid hold".to_string()));
    assert_eq!(OrderSide::parse_lower("buy"), Some(OrderSide::Buy));
    assert_eq!(OrderSide::parse_lower("BUY"), None);
    assert_eq!(OrderSide::Buy.rev(), OrderSide::Sell);
    assert_eq!(OrderSide::Sell.rev(), OrderSide::Buy);
    assert!(OrderSide::Buy.bool());
    assert!(!OrderSide::Sell.bool());
    assert_eq!(OrderSide::default(), OrderSide::Buy);
    assert_eq!(OrderType::default(), OrderType::Limit);
    assert_eq!(TimeInForce::default(), TimeInForce::GTC);
}

#[test]
fn parameters_are_wrapped_by_classification() {
    let w = wrap(QueryType::Unauthenticated, 1u8, 5000, "k", 77);
    assert_eq!((w.recv_window, w.api_key, w.timestamp, w.other), (None, None, 0, 1));
    let w = wrap(QueryType::Authorized, 1u8, 5000, "k", 77);
    assert_eq!((w.recv_window, w.api_key, w.timestamp), (Some(5000), Some("k".to_string()), 77));
    let w = wrap(QueryType::AuthWithoutApiKey, 1u8, 5000, "k", 77);
    assert_eq!((w.recv_window, w.api_key, w.timestamp), (Some(5000), None, 77));
    assert!(is_zero(&0));
    assert!(!is_zero(&-3));
}

#[test]
fn call_metadata_and_defaults() {
    assert_eq!(Ping::METHOD, "ping");
    assert_eq!(Ping::TYPE, QueryType::Unauthenticated);
    assert_eq!(QAccountStatus::TYPE, QueryType::AuthWithoutApiKey);
    assert!(QAccountStatus::default().omit_zero_balances);
}

#[test]
fn reconnect_policy_gives_up_after_its_budget() {
    let mut p = ReconnectPolicy::new(3);
    assert_eq!(p.begin(), AcquireStep::Attempt);
    assert_eq!(p.on_outcome(false), AcquireStep::RetryAfterDelay);
    assert_eq!(p.on_outcome(false), AcquireStep::RetryAfterDelay);
    assert_eq!(p.on_outcome(false), AcquireStep::GiveUp(3));
    assert!(!p.may_attempt());
    assert_eq!(p.begin(), AcquireStep::Attempt);
    assert_eq!(p.on_outcome(false), AcquireStep::RetryAfterDelay);
    assert_eq!(p.on_outcome(true), AcquireStep::Acquired);
    assert!(p.may_attempt());
    let mut none = ReconnectPolicy::new(0);
    assert_eq!(none.begin(), AcquireStep::GiveUp(0));
}

#[test]
fn price_lists_and_order_ids() {
    let p = LatestPrice { symbol: "BTCUSDT".to_string(), price: Decimal::new(65000, 0) };
    let one = LatestPrices::Single(p.clone()).to_list();
    assert_eq!(one.len(), 1);
    assert_eq!(one[0].symbol, "BTCUSDT");
    let many = LatestPrices::Many(vec![p.clone(), p]).to_list();
    assert_eq!(many.len(), 2);
    let ack = OrderAck {
        symbol: "BTCUSDT".to_string(),
        order_id: 12345,
        order_list_id: -1,
        client_order_id: "c1".to_string(),
        transact_time: 9,
    };
    assert_eq!(CreateOrderResponse::Ack(ack).order_id(), 12345);
}
