use binance_ws::api::ClientError;
use ws_tool::errors::WsError;
use binance_ws::engine::Frame;
use binance_ws::executor::Event;
use binance_ws::api::market::Kline;
use binance_ws::realtime_market::{Interval, KData, KlineEvent, MarketAction, MarketSession, MiniTicker};
use rust_decimal::Decimal;

fn sent_text(a: MarketAction) -> String {
    match a {
        MarketAction::Send(f) => f,
        other => panic!("expected a frame to write, got {other:?}"),
    }
}

#[test]
fn subscriptions_survive_a_forced_disconnect() {
    let mut m = MarketSession::new();
    assert!(matches!(m.subscribe(vec!["btcusdt@trade".to_string()]), MarketAction::Connect));
    let f = sent_text(m.step(Event::Connected));
    assert_eq!(f, "{\"id\":1,\"method\":\"SUBSCRIBE\",\"params\":[\"btcusdt@trade\"]}");
    assert!(matches!(m.step(Event::Sent), MarketAction::Done(Ok(None))));
    assert!(matches!(m.recv(), MarketAction::Receive));
    assert!(matches!(m.step(Event::ReadFailed(ws_err("reset"))), MarketAction::Connect));
    let f = sent_text(m.step(Event::Connected));
    assert_eq!(f, "{\"id\":2,\"method\":\"SUBSCRIBE\",\"params\":[\"btcusdt@trade\"]}");
    assert!(matches!(m.step(Event::Sent), MarketAction::Receive));
    match m.step(Event::Received(Frame::Text("{\"stream\":\"btcusdt@trade\"}".to_string(), None))) {
        MarketAction::Done(Ok(Some(t))) => assert_eq!(t, "{\"stream\":\"btcusdt@trade\"}"),
        other => panic!("unexpected {other:?}"),
    }
}

#[test]
fn failed_control_frame_replays_the_whole_set_once() {
    let mut m = MarketSession::new();
    let _ = m.subscribe(vec!["a@trade".to_string(), "b@trade".to_string()]);
    let _ = m.step(Event::Connected);
    let _ = m.step(Event::Sent);
    let f = sent_text(m.subscribe(vec!["b@trade".to_string(), "c@trade".to_string()]));
    assert_eq!(f, "{\"id\":2,\"method\":\"SUBSCRIBE\",\"params\":[\"b@trade\",\"c@trade\"]}");
    assert!(matches!(m.step(Event::SendFailed(ws_err("eof"))), MarketAction::Connect));
    let f = sent_text(m.step(Event::Connected));
    assert_eq!(f, "{\"id\":3,\"method\":\"SUBSCRIBE\",\"params\":[\"a@trade\",\"b@trade\",\"c@trade\"]}");
    match m.step(Event::SendFailed(ws_err("eof"))) {
        MarketAction::Done(Err(ClientError::TransportError(e))) => assert_eq!(reason(&e), "eof"),
        other => panic!("unexpected {other:?}"),
    }
}

#[test]
fn unsubscribe_removes_topics_from_the_replay() {
    let mut m = MarketSession::new();
    let _ = m.subscribe(vec!["a@trade".to_string(), "b@trade".to_string()]);
    let _ = m.step(Event::Connected);
    let _ = m.step(Event::Sent);
    let f = sent_text(m.unsubscribe(vec!["a@trade".to_string()]));
    assert_eq!(f, "{\"id\":2,\"method\":\"UNSUBSCRIBE\",\"params\":[\"a@trade\"]}");
    assert!(matches!(m.step(Event::SendFailed(ws_err("eof"))), MarketAction::Connect));
    let f = sent_text(m.step(Event::Connected));
    assert_eq!(f, "{\"id\":3,\"method\":\"SUBSCRIBE\",\"params\":[\"b@trade\"]}");
}

#[test]
fn reads_answer_probes_and_fail_after_one_resumption() {
    let mut m = MarketSession::new();
    assert!(matches!(m.recv(), MarketAction::Connect));
    assert!(matches!(m.step(Event::Connected), MarketAction::Receive));
    match m.step(Event::Received(Frame::Ping("p".to_string()))) {
        MarketAction::Pong(p) => assert_eq!(p, "p"),
        other => panic!("unexpected {other:?}"),
    }
    assert!(matches!(m.step(Event::Received(Frame::Other)), MarketAction::Receive));
    assert!(matches!(m.step(Event::ReadFailed(ws_err("x"))), MarketAction::Connect));
    let f = sent_text(m.step(Event::Connected));
    assert_eq!(f, "{\"id\":1,\"method\":\"SUBSCRIBE\",\"params\":[]}");
    assert!(matches!(m.step(Event::Sent), MarketAction::Receive));
    assert!(matches!(
        m.step(Event::ReadFailed(ws_err("y"))),
        MarketAction::Done(Err(ClientError::TransportError(_)))
    ));
    assert!(matches!(m.recv(), MarketAction::Connect));
    assert!(matches!(
        m.step(Event::ConnectFailed(ws_err("down"))),
        MarketAction::Done(Err(ClientError::ConnectionFailed(_)))
    ));
}

#[test]
fn interval_texts() {
    assert_eq!(Interval::Min15.as_str(), "15m");
    assert_eq!(Interval::Month1.to_string(), "1M");
    assert_eq!("1w".parse::<Interval>(), Ok(Interval::Week1));
    assert_eq!(Interval::parse("12h"), Some(Interval::Hour12));
    assert_eq!(Interval::from_text("2m"), Err("invalid interval 2m".to_string()));
    assert_eq!(Interval::default(), Interval::Min1);
}

#[test]
fn stream_names() {
    assert_eq!(
        KlineEvent::params(vec![("BTCUSDT".to_string(), Interval::Min1), ("EthUsdt".to_string(), Interval::Hour4)]),
        vec!["btcusdt@kline_1m".to_string(), "ethusdt@kline_4h".to_string()]
    );
    assert_eq!(MiniTicker::params(vec!["btcusdt".to_string()]), vec!["btcusdt@miniTicker".to_string()]);
    assert!(MiniTicker::check_stream("btcusdt@miniTicker"));
    assert!(!MiniTicker::check_stream("btcusdt@trade"));
    assert!(MiniTicker::check_event("24hrMiniTicker"));
    assert!(!MiniTicker::check_event("24hrTicker"));
}

#[test]
fn kline_converts_to_stream_shape() {
    let k = Kline {
        open_time: 1,
        open: Decimal::new(101, 1),
        high: Decimal::new(120, 1),
        low: Decimal::new(95, 1),
        close: Decimal::new(110, 1),
        volume: Decimal::new(5, 0),
        close_time: 60000,
        amount: Decimal::new(55, 0),
        count: 7,
        buy_volume: Decimal::new(2, 0),
        buy_amount: Decimal::new(22, 0),
    };
    let d = KData::from(k);
    assert_eq!((d.open_time, d.close_time, d.trade_num, d.is_end), (1, 60000, 7, true));
    assert_eq!((d.first_id, d.last_id, d.interval), (0, 0, Interval::Min1));
    assert_eq!((d.open, d.close, d.high, d.low), (Decimal::new(101, 1), Decimal::new(110, 1), Decimal::new(120, 1), Decimal::new(95, 1)));
    assert_eq!((d.volume, d.qty, d.take_volume, d.take_qty), (Decimal::new(5, 0), Decimal::new(55, 0), Decimal::new(2, 0), Decimal::new(22, 0)));
    assert!(d.symbol.is_empty());
}

#[test]
fn a_control_frame_on_a_new_connection_carries_only_its_topics() {
    let mut m = MarketSession::new();
    let _ = m.subscribe(vec!["a@trade".to_string()]);
    let _ = m.step(Event::Connected);
    let _ = m.step(Event::Sent);
    let _ = m.recv();
    let _ = m.step(Event::ReadFailed(ws_err("x")));
    assert!(matches!(
        m.step(Event::ConnectFailed(ws_err("down"))),
        MarketAction::Done(Err(ClientError::ConnectionFailed(_)))
    ));
    assert!(matches!(m.subscribe(vec!["b@trade".to_string()]), MarketAction::Connect));
    let f = sent_text(m.step(Event::Connected));
    assert_eq!(f, "{\"id\":2,\"method\":\"SUBSCRIBE\",\"params\":[\"b@trade\"]}");
    assert!(matches!(m.step(Event::SendFailed(ws_err("eof"))), MarketAction::Connect));
    let f = sent_text(m.step(Event::Connected));
    assert_eq!(f, "{\"id\":3,\"method\":\"SUBSCRIBE\",\"params\":[\"a@trade\",\"b@trade\"]}");
}

fn ws_err(m: &str) -> WsError {
    WsError::ConnectionFailed(m.to_string())
}

#[allow(dead_code)]
fn reason(e: &WsError) -> String {
    match e {
        WsError::ConnectionFailed(m) => m.clone(),
        other => format!("{other:?}"),
    }
}
