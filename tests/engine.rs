use binance_ws::engine::{AwaitStart, Correlator, Frame, FrameOutcome, Header};

fn ok_frame(id: u64, text: &str) -> Frame {
    Frame::Text(text.to_string(), Some(Header { id, status: 200 }))
}

#[test]
fn ids_increase_from_one() {
    let mut c = Correlator::new();
    assert_eq!(c.last_issued(), 0);
    assert_eq!(c.issue(), 1);
    assert_eq!(c.issue(), 2);
    assert_eq!(c.last_issued(), 2);
}

#[test]
fn out_of_order_responses_are_buffered_then_handed_out() {
    let mut c = Correlator::new();
    let a = c.issue();
    let b = c.issue();
    let d = c.issue();
    assert!(matches!(c.begin_await(d), AwaitStart::Wait));
    assert!(matches!(c.accept(d, ok_frame(a, "ra")), FrameOutcome::Buffered));
    assert!(matches!(c.accept(d, ok_frame(b, "rb")), FrameOutcome::Buffered));
    match c.accept(d, ok_frame(d, "rd")) {
        FrameOutcome::Matched(t) => assert_eq!(t, "rd"),
        other => panic!("unexpected {other:?}"),
    }
    match c.begin_await(b) {
        AwaitStart::Ready(t) => assert_eq!(t, "rb"),
        other => panic!("unexpected {other:?}"),
    }
    match c.begin_await(a) {
        AwaitStart::Ready(t) => assert_eq!(t, "ra"),
        other => panic!("unexpected {other:?}"),
    }
}

#[test]
fn a_response_is_handed_out_once() {
    let mut c = Correlator::new();
    let a = c.issue();
    let b = c.issue();
    assert!(matches!(c.accept(b, ok_frame(a, "ra")), FrameOutcome::Buffered));
    assert!(matches!(c.begin_await(a), AwaitStart::Ready(_)));
    assert!(matches!(c.begin_await(a), AwaitStart::NotAwaitable));
    assert!(matches!(c.accept(b, ok_frame(b, "rb")), FrameOutcome::Matched(_)));
    assert!(matches!(c.begin_await(b), AwaitStart::NotAwaitable));
    assert!(matches!(c.begin_await(99), AwaitStart::NotAwaitable));
}

#[test]
fn error_envelope_aborts_whatever_id_is_awaited() {
    let mut c = Correlator::new();
    let _ = c.issue();
    let b = c.issue();
    let text = "{\"id\":0,\"status\":400,\"error\":{\"code\":-1}}";
    match c.accept(b, Frame::Text(text.to_string(), Some(Header { id: 0, status: 400 }))) {
        FrameOutcome::ApiFailure(t) => assert_eq!(t, text),
        other => panic!("unexpected {other:?}"),
    }
    assert!(matches!(
        c.accept(b, Frame::Text("x".to_string(), Some(Header { id: 1, status: 429 }))),
        FrameOutcome::ApiFailure(_)
    ));
    assert!(matches!(c.begin_await(b), AwaitStart::Wait));
}

#[test]
fn probes_and_other_frames_are_not_responses() {
    let mut c = Correlator::new();
    let a = c.issue();
    match c.accept(a, Frame::Ping("hb".to_string())) {
        FrameOutcome::Probe(p) => assert_eq!(p, "hb"),
        other => panic!("unexpected {other:?}"),
    }
    assert!(matches!(c.accept(a, Frame::Other), FrameOutcome::Skipped));
    assert!(matches!(c.accept(a, Frame::Text("junk".to_string(), None)), FrameOutcome::Malformed(_)));
    assert!(matches!(c.begin_await(a), AwaitStart::Wait));
}

#[test]
fn abandoned_id_is_not_awaitable() {
    let mut c = Correlator::new();
    let a = c.issue();
    c.abandon(a);
    assert!(matches!(c.begin_await(a), AwaitStart::NotAwaitable));
}
