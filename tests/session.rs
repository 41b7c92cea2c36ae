use base64::Engine;
use binance_ws::api::session::{logon_query, Logon, SignOn};
use ed25519_dalek::pkcs8::spki::der::pem::LineEnding;
use ed25519_dalek::pkcs8::EncodePrivateKey;
use ed25519_dalek::Verifier;

fn key_pem() -> (ed25519_dalek::SigningKey, String) {
    let key = ed25519_dalek::SigningKey::from_bytes(&[9u8; 32]);
    let pem = key.to_pkcs8_pem(LineEnding::LF).unwrap().to_string();
    (key, pem)
}

#[test]
fn logon_query_text() {
    assert_eq!(logon_query("abc", 5000, 1700000000000), "apiKey=abc&recvWindow=5000&timestamp=1700000000000");
    assert_eq!(logon_query("", -1, 0), "apiKey=&recvWindow=-1&timestamp=0");
}

#[test]
fn sign_on_carries_a_verifiable_signature() {
    let (key, pem) = key_pem();
    let s = SignOn::new("abc".to_string(), &pem, 5000, 1700000000000).unwrap();
    assert_eq!(s.api_key, "abc");
    assert_eq!(s.recv_window, 5000);
    assert_eq!(s.timestamp, 1700000000000);
    assert_eq!(s.signature.len(), 88);
    let bytes = base64::engine::general_purpose::STANDARD.decode(&s.signature).unwrap();
    let sig = ed25519_dalek::Signature::from_slice(&bytes).unwrap();
    let msg = "apiKey=abc&recvWindow=5000&timestamp=1700000000000";
    assert!(key.verifying_key().verify(msg.as_bytes(), &sig).is_ok());
}

#[test]
fn unreadable_key_signs_nothing() {
    assert!(SignOn::new("abc".to_string(), "garbage", 1, 2).is_none());
    let l = Logon { api_key: "abc".to_string(), perm_key: "garbage".to_string() };
    assert!(l.sign(5000).is_none());
}

#[test]
fn signed_logon_parameters_text() {
    let (_, pem) = key_pem();
    let l = Logon { api_key: "abc".to_string(), perm_key: pem };
    let s = l.sign_at(6000, 42).unwrap();
    let text = s.params_text();
    assert!(text.starts_with("{\"apiKey\":\"abc\",\"signature\":\""));
    assert!(text.ends_with("\",\"timestamp\":42,\"recvWindow\":6000}"));
    let v: serde_json::Value = serde_json::from_str(&text).unwrap();
    assert_eq!(v["signature"].as_str().unwrap().len(), 88);
}
