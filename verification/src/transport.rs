//! The HTTP and JSON edges of the library.
//!
//! Everything here either declares an outside type or wraps one outside
//! call.  The HTTP wrappers promise nothing of their outcome — the network
//! decides it — and every function that uses them states what holds of its
//! result whatever came back.  Decoding a response body is a function of
//! the text alone, so its result bears the name [`parsed_json`], and the
//! response interpreters in [`crate::protocol`] carry exact contracts over
//! that name.

use vstd::prelude::*;

use crate::json::Json;

verus! {

#[verifier::external_type_specification]
#[verifier::external_body]
pub struct ExClient(reqwest::blocking::Client);

#[verifier::external_type_specification]
#[verifier::external_body]
pub struct ExReqError(reqwest::Error);

#[verifier::external_type_specification]
#[verifier::external_body]
pub struct ExJsonValue(serde_json::Value);

/// What a JSON document decodes to under this library's model: `None` for
/// text that is not JSON, and otherwise the document with object member
/// order preserved.  The result depends on the text alone.
pub uninterp spec fn parsed_json(s: Seq<char>) -> Option<Json>;

/// Relies on reqwest::blocking::Client::new.  May abort if no HTTP
/// backend can be initialised.
#[verifier::external_body]
pub(crate) fn new_http_client() -> (r: reqwest::blocking::Client) {
    reqwest::blocking::Client::new()
}

/// Relies on reqwest's blocking client: issues an HTTP GET to `url` and
/// returns the response body text.  Nothing is promised of the outcome:
/// the network decides it.
#[verifier::external_body]
pub(crate) fn http_get(client: &reqwest::blocking::Client, url: &Vec<u8>) -> (r: Result<
    String,
    reqwest::Error,
>) {
    let url_s = String::from_utf8_lossy(url).into_owned();
    match client.get(url_s).send() {
        Ok(resp) => resp.text(),
        Err(e) => Err(e),
    }
}

/// Relies on reqwest's blocking client: issues an HTTP POST to `url` with
/// `body` as a JSON body and returns the response body text.  Nothing is
/// promised of the outcome: the network decides it.
#[verifier::external_body]
pub(crate) fn http_post(client: &reqwest::blocking::Client, url: &Vec<u8>, body: &Vec<
    u8,
>) -> (r: Result<String, reqwest::Error>) {
    let url_s = String::from_utf8_lossy(url).into_owned();
    let req = client.post(url_s).header("content-type", "application/json").body(body.clone());
    match req.send() {
        Ok(resp) => resp.text(),
        Err(e) => Err(e),
    }
}

/// Relies on reqwest's blocking client: issues an HTTP DELETE to `url`
/// and returns the response body text.  Nothing is promised of the
/// outcome: the network decides it.
#[verifier::external_body]
pub(crate) fn http_delete(client: &reqwest::blocking::Client, url: &Vec<u8>) -> (r: Result<
    String,
    reqwest::Error,
>) {
    let url_s = String::from_utf8_lossy(url).into_owned();
    match client.delete(url_s).send() {
        Ok(resp) => resp.text(),
        Err(e) => Err(e),
    }
}

/// Relies on reqwest::blocking::get: a one-shot HTTP GET to `url`,
/// returning the response body text.  Nothing is promised of the outcome:
/// the network decides it.
#[verifier::external_body]
pub(crate) fn http_plain_get(url: &Vec<u8>) -> (r: Result<String, reqwest::Error>) {
    let url_s = String::from_utf8_lossy(url).into_owned();
    match reqwest::blocking::get(url_s) {
        Ok(resp) => resp.text(),
        Err(e) => Err(e),
    }
}

/// Relies on serde_json::from_str: decodes a JSON document, or reports
/// `None` for text that is not one.  The document is rewritten into the
/// library's model by [`value_to_json`]; the whole result is a function
/// of the text alone, named [`parsed_json`].
#[verifier::external_body]
pub(crate) fn parse_json(body: &str) -> (r: Option<Json>)
    ensures
        r == parsed_json(body@),
{
    match serde_json::from_str::<serde_json::Value>(body) {
        Ok(v) => Some(value_to_json(&v)),
        Err(_) => None,
    }
}

/// Relies on serde_json::Value: rewrites each variant of a decoded
/// document into the library's model, one arm per variant.  Object member
/// order is serde_json's, which preserves the document's order; numbers
/// carry no payload in the model.
#[verifier::external_body]
fn value_to_json(v: &serde_json::Value) -> Json {
    match v {
        serde_json::Value::Null => Json::Null,
        serde_json::Value::Bool(b) => Json::Bool(*b),
        serde_json::Value::Number(_) => Json::Num,
        serde_json::Value::String(s) => Json::Str(s.clone()),
        serde_json::Value::Array(a) => Json::Arr(a.iter().map(value_to_json).collect()),
        serde_json::Value::Object(m) => Json::Obj(
            m.iter().map(|(k, x)| (k.clone(), value_to_json(x))).collect(),
        ),
    }
}

/// Relies on the Display impl of reqwest::Error for a diagnostic message.
#[verifier::external_body]
pub(crate) fn error_message(e: &reqwest::Error) -> (r: String) {
    format!("{}", e)
}

} // verus!
