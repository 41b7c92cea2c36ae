use binance_ws::api::session::Logon;
use binance_ws::api::ClientError;
use ws_tool::errors::WsError;
use binance_ws::engine::{Frame, Header};
use binance_ws::executor::{Action, Event, Executor};
use ed25519_dalek::pkcs8::spki::der::pem::LineEnding;
use ed25519_dalek::pkcs8::EncodePrivateKey;

fn response(id: u64, status: i64, text: &str) -> Event {
    Event::Received(Frame::Text(text.to_string(), Some(Header { id, status })))
}

fn sent_text(a: Action) -> String {
    match a {
        Action::Send(f) => f,
        other => panic!("expected a frame to write, got {other:?}"),
    }
}

fn test_credential() -> Logon {
    let key = ed25519_dalek::SigningKey::from_bytes(&[7u8; 32]);
    let pem = key.to_pkcs8_pem(LineEnding::LF).unwrap().to_string();
    Logon { api_key: "key1".to_string(), perm_key: pem }
}

#[test]
fn successful_call_returns_the_response() {
    let mut ex = Executor::new(None, 5000);
    assert!(ex.can_start());
    assert!(matches!(ex.start("time", "{}".to_string()), Action::Connect));
    let f = sent_text(ex.step(Event::Connected));
    assert_eq!(f, "{\"id\":1,\"method\":\"time\",\"params\":{}}");
    assert!(matches!(ex.step(Event::Sent), Action::Receive));
    let body = "{\"id\":1,\"status\":200,\"result\":{\"serverTime\":1},\"rateLimits\":[]}";
    match ex.step(response(1, 200, body)) {
        Action::Finish(Ok(t)) => assert_eq!(t, body),
        other => panic!("unexpected {other:?}"),
    }
    assert!(ex.can_start());
    let f = sent_text(ex.start("ping", "{}".to_string()));
    assert_eq!(f, "{\"id\":2,\"method\":\"ping\",\"params\":{}}");
}

#[test]
fn error_envelope_fails_the_wait_then_the_retry_surfaces_it() {
    let mut ex = Executor::new(None, 5000);
    let _ = ex.start("time", "{}".to_string());
    let _ = ex.step(Event::Connected);
    let _ = ex.step(Event::Sent);
    let _ = ex.step(response(1, 200, "ok"));
    let _ = sent_text(ex.start("depth", "{}".to_string()));
    assert!(matches!(ex.step(Event::Sent), Action::Receive));
    let err = "{\"id\":0,\"status\":400,\"error\":{\"code\":-1102}}";
    assert!(matches!(ex.step(response(0, 400, err)), Action::Connect));
    let f = sent_text(ex.step(Event::Connected));
    assert_eq!(f, "{\"id\":3,\"method\":\"depth\",\"params\":{}}");
    assert!(matches!(ex.step(Event::Sent), Action::Receive));
    match ex.step(response(0, 400, err)) {
        Action::Finish(Err(ClientError::ApiError(t))) => assert_eq!(t, err),
        other => panic!("unexpected {other:?}"),
    }
}

#[test]
fn write_failure_reconnects_logs_on_and_resends_once() {
    let mut ex = Executor::new(Some(test_credential()), 5000);
    assert!(matches!(ex.start("account.status", "{\"timestamp\":5}".to_string()), Action::Connect));
    let logon = sent_text(ex.step(Event::Connected));
    assert!(logon.starts_with("{\"id\":1,\"method\":\"session.logon\",\"params\":{\"apiKey\":\"key1\",\"signature\":\""));
    assert!(logon.ends_with(",\"recvWindow\":5000}}"));
    let _ = ex.step(Event::Sent);
    let req = sent_text(ex.step(response(1, 200, "logged on")));
    assert_eq!(req, "{\"id\":2,\"method\":\"account.status\",\"params\":{\"timestamp\":5}}");
    assert!(matches!(ex.step(Event::SendFailed(ws_err("broken pipe"))), Action::Connect));
    let logon = sent_text(ex.step(Event::Connected));
    assert!(logon.starts_with("{\"id\":3,\"method\":\"session.logon\""));
    let _ = ex.step(Event::Sent);
    let req = sent_text(ex.step(response(3, 200, "logged on")));
    assert_eq!(req, "{\"id\":4,\"method\":\"account.status\",\"params\":{\"timestamp\":5}}");
    let _ = ex.step(Event::Sent);
    match ex.step(Event::ReadFailed(ws_err("reset"))) {
        Action::Finish(Err(ClientError::TransportError(m))) => assert_eq!(reason(&m), "reset"),
        other => panic!("unexpected {other:?}"),
    }
    assert!(matches!(ex.start("ping", "{}".to_string()), Action::Connect));
}

#[test]
fn second_failure_surfaces_without_a_third_attempt() {
    let mut ex = Executor::new(None, 5000);
    let _ = ex.start("time", "{}".to_string());
    assert!(matches!(ex.step(Event::ConnectFailed(ws_err("refused"))), Action::Connect));
    match ex.step(Event::ConnectFailed(ws_err("refused again"))) {
        Action::Finish(Err(ClientError::ConnectionFailed(m))) => assert_eq!(reason(&m), "refused again"),
        other => panic!("unexpected {other:?}"),
    }
}

#[test]
fn probes_during_a_wait_are_answered_not_returned() {
    let mut ex = Executor::new(None, 5000);
    let _ = ex.start("time", "{}".to_string());
    let _ = ex.step(Event::Connected);
    let _ = ex.step(Event::Sent);
    match ex.step(Event::Received(Frame::Ping("beat".to_string()))) {
        Action::Pong(p) => assert_eq!(p, "beat"),
        other => panic!("unexpected {other:?}"),
    }
    assert!(matches!(ex.step(Event::Received(Frame::Other)), Action::Receive));
    assert!(matches!(ex.step(response(5, 200, "later")), Action::Receive));
    match ex.step(response(1, 200, "mine")) {
        Action::Finish(Ok(t)) => assert_eq!(t, "mine"),
        other => panic!("unexpected {other:?}"),
    }
}

#[test]
fn undecodable_frame_is_not_retried() {
    let mut ex = Executor::new(None, 5000);
    let _ = ex.start("time", "{}".to_string());
    let _ = ex.step(Event::Connected);
    let _ = ex.step(Event::Sent);
    match ex.step(Event::Received(Frame::Text("not json".to_string(), None))) {
        Action::Finish(Err(ClientError::DecodeError(t))) => assert_eq!(t, "not json"),
        other => panic!("unexpected {other:?}"),
    }
    let f = sent_text(ex.start("time", "{}".to_string()));
    assert_eq!(f, "{\"id\":2,\"method\":\"time\",\"params\":{}}");
}

#[test]
fn unreadable_signing_key_ends_the_call() {
    let cred = Logon { api_key: "k".to_string(), perm_key: "not a key".to_string() };
    let mut ex = Executor::new(Some(cred), 5000);
    let _ = ex.start("time", "{}".to_string());
    assert!(matches!(ex.step(Event::Connected), Action::Finish(Err(ClientError::InvalidKey))));
}

#[test]
fn events_are_checked_against_the_stage() {
    let mut ex = Executor::new(None, 5000);
    assert!(!ex.accepts(&Event::Connected));
    let _ = ex.start("time", "{}".to_string());
    assert!(ex.accepts(&Event::Connected));
    assert!(!ex.accepts(&Event::Sent));
    assert!(!ex.can_start());
}

#[test]
fn a_call_without_retry_ends_at_its_first_failure() {
    let mut ex = Executor::new(None, 5000);
    assert!(matches!(ex.start_once("time", "{}".to_string()), Action::Connect));
    let _ = ex.step(Event::Connected);
    match ex.step(Event::SendFailed(ws_err("eof"))) {
        Action::Finish(Err(ClientError::TransportError(m))) => assert_eq!(reason(&m), "eof"),
        other => panic!("unexpected {other:?}"),
    }
}

fn ws_err(m: &str) -> WsError {
    WsError::ConnectionFailed(m.to_string())
}

#[allow(dead_code)]
fn reason(e: &WsError) -> String {
    match e {
        WsError::ConnectionFailed(m) => m.clone(),
        other => format!("{other:?}"),
    }
}
