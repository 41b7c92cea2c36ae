use binance_ws::json::{ends_with, push_decimal, push_quoted, push_signed_decimal, request_frame, str_eq};
use binance_ws::realtime_market::control_frame;
use binance_ws::reconnect::exhausted_message;

#[test]
fn request_envelope_text() {
    assert_eq!(
        request_frame(7, "time", "{}"),
        "{\"id\":7,\"method\":\"time\",\"params\":{}}"
    );
    assert_eq!(
        request_frame(18446744073709551615, "a\"b", "{\"x\":1}"),
        "{\"id\":18446744073709551615,\"method\":\"a\\\"b\",\"params\":{\"x\":1}}"
    );
}

#[test]
fn decimal_texts() {
    let mut s = String::new();
    push_decimal(&mut s, 0);
    s.push(' ');
    push_decimal(&mut s, 1234567890);
    s.push(' ');
    push_signed_decimal(&mut s, -42);
    s.push(' ');
    push_signed_decimal(&mut s, i64::MIN);
    assert_eq!(s, "0 1234567890 -42 -9223372036854775808");
}

#[test]
fn quoting_escapes_like_json() {
    let mut s = String::new();
    push_quoted(&mut s, "a\"b\\c\nd\te\u{1}f\u{8}\u{c}\rgé");
    assert_eq!(s, "\"a\\\"b\\\\c\\nd\\te\\u0001f\\b\\f\\rgé\"");
    let parsed: String = serde_json::from_str(&s).unwrap();
    assert_eq!(parsed, "a\"b\\c\nd\te\u{1}f\u{8}\u{c}\rgé");
}

#[test]
fn text_comparisons() {
    assert!(str_eq("abc", "abc"));
    assert!(!str_eq("abc", "abd"));
    assert!(!str_eq("ab", "abc"));
    assert!(ends_with("btcusdt@miniTicker", "miniTicker"));
    assert!(!ends_with("Ticker", "miniTicker"));
}

#[test]
fn subscribe_frame_text() {
    let topics = vec!["btcusdt@trade".to_string(), "ethusdt@trade".to_string()];
    assert_eq!(
        control_frame(3, "SUBSCRIBE", &topics),
        "{\"id\":3,\"method\":\"SUBSCRIBE\",\"params\":[\"btcusdt@trade\",\"ethusdt@trade\"]}"
    );
    assert_eq!(control_frame(1, "UNSUBSCRIBE", &vec![]), "{\"id\":1,\"method\":\"UNSUBSCRIBE\",\"params\":[]}");
}

#[test]
fn exhausted_diagnostic() {
    assert_eq!(exhausted_message(3), "try to connect over 3 times");
}
