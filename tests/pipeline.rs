use binance_ws::api::ClientError;
use ws_tool::errors::WsError;
use binance_ws::engine::{Frame, Header};
use binance_ws::executor::Event;
use binance_ws::pipeline::{Pipeline, PipelineAction};

fn response(id: u64, text: &str) -> Event {
    Event::Received(Frame::Text(text.to_string(), Some(Header { id, status: 200 })))
}

fn sent_text(a: PipelineAction) -> String {
    match a {
        PipelineAction::Send(f) => f,
        other => panic!("expected a frame to write, got {other:?}"),
    }
}

#[test]
fn a_window_is_written_then_its_responses_come_back_in_order() {
    let mut p = Pipeline::new();
    assert!(p.can_start(3));
    let params = vec!["{\"a\":1}".to_string(), "{\"a\":2}".to_string(), "{\"a\":3}".to_string()];
    let f = sent_text(p.start("depth", params, 2));
    assert_eq!(f, "{\"id\":1,\"method\":\"depth\",\"params\":{\"a\":1}}");
    assert_eq!(sent_text(p.step(Event::Sent)), "{\"id\":2,\"method\":\"depth\",\"params\":{\"a\":2}}");
    assert_eq!(sent_text(p.step(Event::Sent)), "{\"id\":3,\"method\":\"depth\",\"params\":{\"a\":3}}");
    assert!(matches!(p.step(Event::Sent), PipelineAction::Receive));
    assert!(matches!(p.step(response(3, "r3")), PipelineAction::Receive));
    match p.step(Event::Received(Frame::Ping("hb".to_string()))) {
        PipelineAction::Pong(x) => assert_eq!(x, "hb"),
        other => panic!("unexpected {other:?}"),
    }
    assert!(matches!(p.step(response(1, "r1")), PipelineAction::Receive));
    match p.step(response(2, "r2")) {
        PipelineAction::Finish(Ok(v)) => assert_eq!(v, vec!["r1", "r2", "r3"]),
        other => panic!("unexpected {other:?}"),
    }
}

#[test]
fn windows_alternate_writes_and_waits() {
    let mut p = Pipeline::new();
    let params = vec!["{}".to_string(), "{}".to_string(), "{}".to_string()];
    let _ = sent_text(p.start("ping", params, 1));
    let _ = sent_text(p.step(Event::Sent));
    assert!(matches!(p.step(Event::Sent), PipelineAction::Receive));
    assert!(matches!(p.step(response(1, "a")), PipelineAction::Receive));
    let f = sent_text(p.step(response(2, "b")));
    assert_eq!(f, "{\"id\":3,\"method\":\"ping\",\"params\":{}}");
    assert!(matches!(p.step(Event::Sent), PipelineAction::Receive));
    match p.step(response(3, "c")) {
        PipelineAction::Finish(Ok(v)) => assert_eq!(v, vec!["a", "b", "c"]),
        other => panic!("unexpected {other:?}"),
    }
}

#[test]
fn an_empty_batch_ends_at_once_and_failures_end_a_batch() {
    let mut p = Pipeline::new();
    assert!(matches!(p.start("ping", vec![], 4), PipelineAction::Finish(Ok(v)) if v.is_empty()));
    let _ = p.start("ping", vec!["{}".to_string()], 4);
    assert!(matches!(p.step(Event::Sent), PipelineAction::Receive));
    let err = "{\"id\":0,\"status\":400}";
    match p.step(Event::Received(Frame::Text(err.to_string(), Some(Header { id: 0, status: 400 })))) {
        PipelineAction::Finish(Err(ClientError::ApiError(t))) => assert_eq!(t, err),
        other => panic!("unexpected {other:?}"),
    }
    let _ = p.start("ping", vec!["{}".to_string()], 4);
    assert!(matches!(
        p.step(Event::SendFailed(ws_err("eof"))),
        PipelineAction::Finish(Err(ClientError::TransportError(_)))
    ));
}

fn ws_err(m: &str) -> WsError {
    WsError::ConnectionFailed(m.to_string())
}

#[allow(dead_code)]
fn reason(e: &WsError) -> String {
    match e {
        WsError::ConnectionFailed(m) => m.clone(),
        other => format!("{other:?}"),
    }
}
