//! The prediction-market venue: what requests carry and what responses say.

use vstd::prelude::*;
use vstd::utf8::encode_utf8;
use base64::Engine;
use hmac::Mac;
use crate::config::Config;
use crate::domain::{order_type_text, side_text, OrderType, Side};

verus! {

/// The venue's answer to an order submission.
#[derive(Clone, Debug)]
pub struct OrderResponse {
    pub success: bool,
    pub order_id: Option<String>,
    pub error_msg: Option<String>,
}

/// An order resting at the venue, as the venue lists it.
#[derive(Clone, Debug)]
pub struct OpenOrder {
    pub id: String,
    pub token_id: String,
    pub price: String,
    pub size: String,
    pub side: String,
}

/// What standard base64 decoding (with padding) gives for a text: the bytes,
/// or `None` for text that is not base64.
pub uninterp spec fn base64_decoded(s: Seq<char>) -> Option<Seq<u8>>;

/// The standard base64 text (with padding) of some bytes.
pub uninterp spec fn base64_encoded(b: Seq<u8>) -> Seq<char>;

/// The HMAC-SHA256 tag of a message under a key.
pub uninterp spec fn hmac_sha256_of(key: Seq<u8>, msg: Seq<u8>) -> Seq<u8>;

/// Relies on base64's `STANDARD.decode`: the bytes a text stands for, or an
/// error for text that is not base64.
#[verifier::external_body]
fn decode_base64(s: &str) -> (r: Option<Vec<u8>>)
    ensures
        match r {
            Some(v) => base64_decoded(s@) == Some(v@),
            None => base64_decoded(s@) is None,
        },
{
    base64::engine::general_purpose::STANDARD.decode(s).ok()
}

/// Relies on base64's `STANDARD.encode`, which panics only when the output
/// length overflows.
#[verifier::external_body]
fn encode_base64(b: &[u8]) -> (r: String)
    requires
        b@.len() <= 1_000_000,
    ensures
        r@ == base64_encoded(b@),
{
    base64::engine::general_purpose::STANDARD.encode(b)
}

/// Relies on hmac's `Hmac::<Sha256>`: `new_from_slice` takes a key of any
/// length (longer ones are hashed first), then `update` and `finalize` give
/// the 32-byte tag.
#[verifier::external_body]
fn hmac_sha256(key: &[u8], msg: &[u8]) -> (r: Vec<u8>)
    ensures
        r@ == hmac_sha256_of(key@, msg@),
        r@.len() == 32,
{
    let mut mac = match hmac::Hmac::<sha2::Sha256>::new_from_slice(key) {
        Ok(m) => m,
        Err(_) => return Vec::new(),
    };
    mac.update(msg);
    mac.finalize().into_bytes().to_vec()
}

/// Why a request could not be signed.
#[derive(Clone, Copy, Debug, PartialEq, Eq, Structural)]
pub enum SignError {
    /// The configured secret is not base64.
    InvalidSecret,
}

/// The text a request signature covers: timestamp, method, path and body,
/// joined.
pub open spec fn signing_text(timestamp: Seq<char>, method: Seq<char>, path: Seq<char>, body: Seq<char>) -> Seq<char> {
    timestamp + method + path + body
}

/// The signature of a request under a secret: the base64 of the HMAC-SHA256
/// tag, keyed by the decoded secret, of the UTF-8 signing text.
pub open spec fn signature_of(key: Seq<u8>, text: Seq<char>) -> Seq<char> {
    base64_encoded(hmac_sha256_of(key, encode_utf8(text)))
}

/// Signs a request; fails when the secret is not base64.
pub fn sign(secret: &str, timestamp: &str, method: &str, path: &str, body: &str) -> (r: Result<String, SignError>)
    ensures
        match base64_decoded(secret@) {
            Some(key) => r matches Ok(sig) && sig@ == signature_of(key, signing_text(timestamp@, method@, path@, body@)),
            None => r == Err::<String, SignError>(SignError::InvalidSecret),
        },
{
    let message = timestamp.to_owned().concat(method).concat(path).concat(body);
    let key = match decode_base64(secret) {
        Some(k) => k,
        None => {
            return Err(SignError::InvalidSecret);
        },
    };
    let tag = hmac_sha256(key.as_slice(), message.as_str().as_bytes());
    Ok(encode_base64(tag.as_slice()))
}

/// The authentication headers of a request sent at `timestamp` (Unix seconds,
/// as text): address, signature, timestamp, API key and passphrase.
pub fn auth_headers(config: &Config, timestamp: &str, method: &str, path: &str, body: &str) -> (r: Result<
    Vec<(String, String)>,
    SignError,
>)
    ensures
        match base64_decoded(config.polymarket_secret@) {
            Some(key) => r matches Ok(h) && h@.len() == 5
                && h@[0].0@ == "POLY-ADDRESS"@ && h@[0].1@ == config.private_key@
                && h@[1].0@ == "POLY-SIGNATURE"@
                && h@[1].1@ == signature_of(key, signing_text(timestamp@, method@, path@, body@))
                && h@[2].0@ == "POLY-TIMESTAMP"@ && h@[2].1@ == timestamp@
                && h@[3].0@ == "POLY-API-KEY"@ && h@[3].1@ == config.polymarket_api_key@
                && h@[4].0@ == "POLY-PASSPHRASE"@ && h@[4].1@ == config.polymarket_passphrase@,
            None => r == Err::<Vec<(String, String)>, SignError>(SignError::InvalidSecret),
        },
{
    let signature = match sign(config.polymarket_secret.as_str(), timestamp, method, path, body) {
        Ok(s) => s,
        Err(e) => {
            return Err(e);
        },
    };
    let mut h: Vec<(String, String)> = Vec::new();
    h.push(("POLY-ADDRESS".to_owned(), config.private_key.clone()));
    h.push(("POLY-SIGNATURE".to_owned(), signature));
    h.push(("POLY-TIMESTAMP".to_owned(), timestamp.to_owned()));
    h.push(("POLY-API-KEY".to_owned(), config.polymarket_api_key.clone()));
    h.push(("POLY-PASSPHRASE".to_owned(), config.polymarket_passphrase.clone()));
    Ok(h)
}

/// The body of an order submission, before it is written as JSON.
#[derive(Clone, Debug)]
pub struct OrderRequest {
    pub token_id: String,
    pub price: u64,
    pub size: u64,
    pub side: String,
    pub order_type: String,
    pub fee_rate_bps: Option<u32>,
}

/// The submission body for an order: the side and the order type as the venue
/// writes them, no fee rate.
pub fn order_request(token_id: &str, price: u64, size: u64, side: Side, order_type: OrderType) -> (r: OrderRequest)
    ensures
        r.token_id@ == token_id@,
        r.price == price,
        r.size == size,
        r.side@ == side_text(side),
        r.order_type@ == order_type_text(order_type),
        r.fee_rate_bps is None,
{
    OrderRequest {
        token_id: token_id.to_owned(),
        price,
        size,
        side: side.as_str().to_owned(),
        order_type: order_type.as_str().to_owned(),
        fee_rate_bps: None,
    }
}

} // verus!
