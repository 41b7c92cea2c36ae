//! Session calls, and the signed logon that authenticates a connection.
use ed25519_dalek::pkcs8::DecodePrivateKey;
use ed25519_dalek::Signer;
use base64::Engine;
use vstd::prelude::*;

use crate::json::{push_quoted, push_signed_decimal, quoted, signed_decimal};

verus! {

/// Whether `DecodePrivateKey::from_pkcs8_pem` reads a signing key from this
/// text.
pub uninterp spec fn pkcs8_pem_readable(pem: Seq<char>) -> bool;

/// The 64-byte ed25519 signature of the UTF-8 bytes of `text`, made with the
/// key read from `pem`; ed25519 signing depends on the key and the message
/// alone.
pub uninterp spec fn ed25519_text_signature(pem: Seq<char>, text: Seq<char>) -> Seq<u8>;

/// The text that base64's standard engine gives for these bytes.
pub uninterp spec fn base64_standard(bytes: Seq<u8>) -> Seq<char>;

/// Relies on ed25519_dalek: `SigningKey::from_pkcs8_pem`
/// (`DecodePrivateKey`) reads the key, or fails on the text alone; `Signer::sign`
/// gives the 64-byte signature of the UTF-8 bytes of `text` with it.
#[verifier::external_body]
fn sign_text(pem: &str, text: &str) -> (r: Option<Vec<u8>>)
    ensures
        r.is_some() == pkcs8_pem_readable(pem@),
        r matches Some(sig) ==> sig@ == ed25519_text_signature(pem@, text@) && sig@.len() == 64,
{
    match ed25519_dalek::SigningKey::from_pkcs8_pem(pem) {
        Ok(key) => Some(key.sign(text.as_bytes()).to_bytes().to_vec()),
        Err(_) => None,
    }
}

/// Relies on base64's `Engine::encode` with `BASE64_STANDARD`, which
/// panics only when the length of the text would overflow `usize`.
#[verifier::external_body]
fn encode_base64(bytes: &[u8]) -> (r: String)
    requires
        bytes@.len() <= usize::MAX / 2,
    ensures
        r@ == base64_standard(bytes@),
        r@.len() == 4 * ((bytes@.len() + 2) / 3),
{
    base64::engine::general_purpose::STANDARD.encode(bytes)
}

/// Asks for the state of the session.
#[derive(Debug, Clone)]
pub struct QSessionStatus;

/// Ends the session's authentication.
#[derive(Debug, Clone)]
pub struct Logout;

/// The state of a session.
#[derive(Debug, Clone)]
pub struct SessionStatus {
    pub api_key: String,
    pub authorized_since: i64,
    pub connected_since: i64,
    pub return_rate_limits: bool,
    pub server_time: i64,
}

/// A credential: an api key and the PKCS#8 PEM text of its signing key.
#[derive(Debug, Clone)]
pub struct Logon {
    pub api_key: String,
    pub perm_key: String,
}

/// The parameters of a logon call.
#[derive(Debug, Clone)]
pub struct SignedLogon {
    api_key: String,
    signature: String,
    timestamp: i64,
    recv_window: i64,
}

/// The parameters of a logon call, built from their parts.
#[derive(Debug, Clone)]
pub struct SignOn {
    pub api_key: String,
    pub recv_window: i64,
    pub signature: String,
    pub timestamp: i64,
}

/// The text that a logon signs.
pub open spec fn logon_query_text(api_key: Seq<char>, recv_window: i64, timestamp: i64) -> Seq<
    char,
> {
    "apiKey="@ + api_key + "&recvWindow="@ + signed_decimal(recv_window as int) + "&timestamp="@
        + signed_decimal(timestamp as int)
}

/// The base64 signature of the logon text of `api_key`, `recv_window` and
/// `timestamp`, made with the key read from `pem`.
pub open spec fn logon_signature(pem: Seq<char>, api_key: Seq<char>, recv_window: i64, timestamp: i64) -> Seq<char> {
    base64_standard(ed25519_text_signature(pem, logon_query_text(api_key, recv_window, timestamp)))
}

/// The text that a logon signs: `apiKey=<key>&recvWindow=<window>&timestamp=<ms>`.
pub fn logon_query(api_key: &str, recv_window: i64, timestamp: i64) -> (r: String)
    ensures
        r@ == logon_query_text(api_key@, recv_window, timestamp),
{
    let mut out = String::new();
    out.append("apiKey=");
    out.append(api_key);
    out.append("&recvWindow=");
    push_signed_decimal(&mut out, recv_window);
    out.append("&timestamp=");
    push_signed_decimal(&mut out, timestamp);
    assert(out@ =~= logon_query_text(api_key@, recv_window, timestamp));
    out
}

/// Signs the logon text of `api_key`, `recv_window` and `timestamp` with the
/// key read from `pem`, base64-encoded; `None` when no key can be read.
fn sign_logon_text(api_key: &str, pem: &str, recv_window: i64, timestamp: i64) -> (r: Option<String>)
    ensures
        r.is_some() == pkcs8_pem_readable(pem@),
        r matches Some(s) ==> s@ == logon_signature(pem@, api_key@, recv_window, timestamp),
{
    let query = logon_query(api_key, recv_window, timestamp);
    match sign_text(pem, query.as_str()) {
        None => None,
        Some(sig) => Some(encode_base64(sig.as_slice())),
    }
}

impl Logon {
    /// The signed logon parameters made at `timestamp`; `None` when the
    /// signing key cannot be read.
    pub fn sign_at(&self, recv_window: i64, timestamp: i64) -> (r: Option<SignedLogon>)
        ensures
            r.is_some() == pkcs8_pem_readable(self.perm_key@),
            r matches Some(s) ==> {
                &&& s.api_key_view() == self.api_key@
                &&& s.recv_window_view() == recv_window
                &&& s.timestamp_view() == timestamp
                &&& s.signature_view() == logon_signature(self.perm_key@, self.api_key@, recv_window, timestamp)
            },
    {
        match sign_logon_text(self.api_key.as_str(), self.perm_key.as_str(), recv_window, timestamp) {
            None => None,
            Some(signature) => Some(
                SignedLogon { api_key: self.api_key.clone(), signature, timestamp, recv_window },
            ),
        }
    }

    /// The signed logon parameters made now; `None` when the signing key
    /// cannot be read.
    pub fn sign(&self, recv_window: i64) -> (r: Option<SignedLogon>)
        ensures
            r.is_some() == pkcs8_pem_readable(self.perm_key@),
            r matches Some(s) ==> {
                &&& s.api_key_view() == self.api_key@
                &&& s.recv_window_view() == recv_window
                &&& s.signature_view() == logon_signature(
                    self.perm_key@,
                    self.api_key@,
                    recv_window,
                    s.timestamp_view(),
                )
            },
    {
        self.sign_at(recv_window, crate::millis_ts())
    }
}

/// The parameters text of a logon call.
pub open spec fn signed_logon_text(
    api_key: Seq<char>,
    signature: Seq<char>,
    timestamp: i64,
    recv_window: i64,
) -> Seq<char> {
    "{\"apiKey\":"@ + quoted(api_key) + ",\"signature\":"@ + quoted(signature) + ",\"timestamp\":"@
        + signed_decimal(timestamp as int) + ",\"recvWindow\":"@ + signed_decimal(recv_window as int)
        + "}"@
}

impl SignedLogon {
    /// The api key that was signed.
    pub closed spec fn api_key_view(&self) -> Seq<char> {
        self.api_key@
    }

    /// The base64 signature.
    pub closed spec fn signature_view(&self) -> Seq<char> {
        self.signature@
    }

    /// The time of signing, in milliseconds.
    pub closed spec fn timestamp_view(&self) -> i64 {
        self.timestamp
    }

    /// The receive window that was signed.
    pub closed spec fn recv_window_view(&self) -> i64 {
        self.recv_window
    }

    /// The parameters as the text of a JSON object.
    pub fn params_text(&self) -> (r: String)
        ensures
            r@ == signed_logon_text(
                self.api_key_view(),
                self.signature_view(),
                self.timestamp_view(),
                self.recv_window_view(),
            ),
    {
        let mut out = String::new();
        out.append("{\"apiKey\":");
        push_quoted(&mut out, self.api_key.as_str());
        out.append(",\"signature\":");
        push_quoted(&mut out, self.signature.as_str());
        out.append(",\"timestamp\":");
        push_signed_decimal(&mut out, self.timestamp);
        out.append(",\"recvWindow\":");
        push_signed_decimal(&mut out, self.recv_window);
        out.append("}");
        assert(out@ =~= signed_logon_text(
            self.api_key@,
            self.signature@,
            self.timestamp,
            self.recv_window,
        ));
        out
    }
}

impl SignOn {
    /// Logon parameters signed with the key read from `private_key`; `None`
    /// when no key can be read.
    pub fn new(api_key: String, private_key: &str, recv_window: i64, timestamp: i64) -> (r: Option<
        Self,
    >)
        ensures
            r.is_some() == pkcs8_pem_readable(private_key@),
            r matches Some(s) ==> {
                &&& s.api_key@ == api_key@
                &&& s.recv_window == recv_window
                &&& s.timestamp == timestamp
                &&& s.signature@ == logon_signature(private_key@, api_key@, recv_window, timestamp)
            },
    {
        match sign_logon_text(api_key.as_str(), private_key, recv_window, timestamp) {
            None => None,
            Some(signature) => Some(SignOn { api_key, recv_window, signature, timestamp }),
        }
    }
}

} // verus!
