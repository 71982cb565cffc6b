//! Continue tokens: opaque cursors that resume a list after a given object.
//!
//! A token is the standard base64 text of the JSON object
//! `{"name": name, "namespace": namespace}` that `serde_json` writes, the
//! namespace `null` for cluster-scoped objects. A token reads back when it is
//! base64 of a JSON object whose `name` member is a string; a `namespace`
//! member that is a string gives the namespace, anything else none. A token
//! whose bytes are UTF-8 text but not a JSON object names that text itself,
//! with no namespace, so base64 of a bare name resumes after that name.

use vstd::prelude::*;
use vstd::utf8::{decode_utf8, encode_utf8, valid_utf8};
use crate::error::AppError;
use crate::store::opt_ref_str;
use crate::types::{ContinueToken, opt_str};
use base64::Engine;

verus! {

/// The text that `base64::engine::general_purpose::STANDARD.encode` gives for these bytes.
pub uninterp spec fn base64_encoding(bytes: Seq<u8>) -> Seq<char>;

/// The bytes that `base64::engine::general_purpose::STANDARD.decode` gives for this text, if it accepts it.
pub uninterp spec fn base64_decoding(text: Seq<char>) -> Option<Seq<u8>>;

/// `STANDARD.encode(bytes)`.
///
/// Besides naming the result, the contract states what the crate documents
/// of the engine: decoding the text gives the bytes back.
#[verifier::external_body]
fn base64_encode(bytes: &[u8]) -> (r: String)
    ensures
        r@ == base64_encoding(bytes@),
        base64_decoding(r@) == Some(bytes@),
{
    base64::engine::general_purpose::STANDARD.encode(bytes)
}

/// `STANDARD.decode(text)`, with any error mapped to `None`.
#[verifier::external_body]
fn base64_decode(text: &str) -> (r: Option<Vec<u8>>)
    ensures
        match r {
            Some(b) => base64_decoding(text@) == Some(b@),
            None => base64_decoding(text@) is None,
        },
{
    base64::engine::general_purpose::STANDARD.decode(text).ok()
}

/// The text `serde_json` writes (`Value::to_string`) for the object with
/// the members `name` (a string) and `namespace` (a string, or `null` for
/// `None`), its members in key order.
pub uninterp spec fn token_json(ns: Option<Seq<char>>, name: Seq<char>) -> Seq<char>;

/// What a token reads from the bytes `serde_json::from_slice` parses: the
/// `namespace` and the `name` members, each when it is present and a string;
/// `None` when the bytes are not JSON, or JSON that is not an object.
pub uninterp spec fn token_members(bytes: Seq<u8>) -> Option<(Option<Seq<char>>, Option<Seq<char>>)>;

/// `serde_json::Value::to_string` of the object `{"namespace": ..., "name":
/// ...}` built from a `serde_json::Map`.
///
/// Besides naming the text, the contract states what `serde_json`
/// documents of its values: parsing the written text gives the same value
/// back, so its two members read back as written.
#[verifier::external_body]
fn position_json(namespace: Option<&str>, name: &str) -> (r: String)
    ensures
        r@ == token_json(opt_ref_str(namespace), name@),
        token_members(encode_utf8(r@)) == Some((opt_ref_str(namespace), Some(name@))),
{
    let mut m = serde_json::Map::new();
    m.insert("namespace".to_string(), match namespace {
        Some(n) => serde_json::Value::String(n.to_string()),
        None => serde_json::Value::Null,
    });
    m.insert("name".to_string(), serde_json::Value::String(name.to_string()));
    serde_json::Value::Object(m).to_string()
}

/// `serde_json::from_slice::<Value>` of the bytes and, when that is an
/// object (`Value::as_object`), its `namespace` and `name` members when they
/// are strings (`Map::get`, `Value::as_str`).
#[verifier::external_body]
fn read_position_json(bytes: &[u8]) -> (r: Option<(Option<String>, Option<String>)>)
    ensures
        match r {
            None => token_members(bytes@) is None,
            Some((a, b)) => token_members(bytes@) == Some((opt_str(a), opt_str(b))),
        },
{
    match serde_json::from_slice::<serde_json::Value>(bytes) {
        Ok(v) => v.as_object().map(|m| (
            m.get("namespace").and_then(|x| x.as_str()).map(|x| x.to_string()),
            m.get("name").and_then(|x| x.as_str()).map(|x| x.to_string()),
        )),
        Err(_) => None,
    }
}

/// `String::from_utf8`, with its error mapped to `None`: the text when the
/// bytes are UTF-8.
#[verifier::external_body]
fn utf8_decode(bytes: Vec<u8>) -> (r: Option<String>)
    ensures
        r is Some <==> valid_utf8(bytes@),
        r matches Some(s) ==> s@ == decode_utf8(bytes@),
{
    String::from_utf8(bytes).ok()
}


/// The token for the object at `(namespace, name)`.
pub open spec fn token_text(ns: Option<Seq<char>>, name: Seq<char>) -> Seq<char> {
    base64_encoding(encode_utf8(token_json(ns, name)))
}

/// The position `(namespace, name)` a token names, if it reads as one: the
/// members of a JSON object with a string `name`, or else, for UTF-8 text
/// that is not a JSON object, that text as a name with no namespace.
pub open spec fn token_position(t: Seq<char>) -> Option<(Option<Seq<char>>, Seq<char>)> {
    match base64_decoding(t) {
        None => None,
        Some(bytes) => match token_members(bytes) {
            Some((ns, Some(name))) => Some((ns, name)),
            Some((_, None)) => None,
            None => if valid_utf8(bytes) {
                Some((None, decode_utf8(bytes)))
            } else {
                None
            },
        },
    }
}

/// The error for a token that does not read: `invalid continue token`, or
/// `invalid continue token: missing name` for a JSON object without a
/// string `name`.
pub open spec fn token_error(t: Seq<char>) -> Seq<char> {
    match base64_decoding(t) {
        Some(bytes) => match token_members(bytes) {
            Some(_) => "invalid continue token: missing name"@,
            None => "invalid continue token"@,
        },
        None => "invalid continue token"@,
    }
}

/// Encodes the position `(namespace, name)` of the last item of a page.
pub fn encode_continue_token(namespace: Option<&str>, name: &str) -> (t: ContinueToken)
    ensures
        t.0@ == token_text(opt_ref_str(namespace), name@),
        token_position(t.0@) == Some((opt_ref_str(namespace), name@)),
{
    let json = position_json(namespace, name);
    let text = base64_encode(json.as_str().as_bytes());
    ContinueToken(text)
}

/// Decodes a token back to the position `(namespace, name)` it names.
pub fn decode_continue_token(token: &ContinueToken) -> (r: Result<(Option<String>, String), AppError>)
    ensures
        match token_position(token.0@) {
            Some((ns, name)) => r matches Ok((n, m)) && m@ == name && opt_str(n) == ns,
            None => r matches Err(AppError::Internal(m)) && m@ == token_error(token.0@),
        },
{
    let bytes = match base64_decode(token.0.as_str()) {
        Some(b) => b,
        None => return Err(AppError::Internal(String::from_str("invalid continue token"))),
    };
    match read_position_json(bytes.as_slice()) {
        None => match utf8_decode(bytes) {
            Some(text) => Ok((None, text)),
            None => Err(AppError::Internal(String::from_str("invalid continue token"))),
        },
        Some((ns, name)) => match name {
            Some(n) => Ok((ns, n)),
            None => Err(AppError::Internal(String::from_str("invalid continue token: missing name"))),
        },
    }
}

} // verus!
