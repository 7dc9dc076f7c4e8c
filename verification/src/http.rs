//! The notification dispatcher: one synchronous outbound call per state
//! change, reporting the record key and state as query parameters and, for a
//! POST, a JSON body with the record's fields.
//!
//! What comes back over the network is never assumed: a reachable endpoint
//! yields an outcome with whatever status and body it sent (a non-2xx status
//! is a valid outcome, not a failure); only transport failures are errors.

use vstd::prelude::*;
use vstd::string::StringExecFns;
use crate::encode::{build_notify_url, build_post_body};
use crate::errors::KvError;
use crate::method::Method;
use crate::record::Notify;

verus! {

/// The outcome of one dispatched notification: the record key it reported,
/// the response status, and the raw response body text.
#[derive(Debug)]
pub struct Response {
    pub id: String,
    pub status_code: u16,
    pub body: String,
}

/// Relies on `reqwest::blocking`: `Client::new`, `Client::get`,
/// `RequestBuilder::send`, `Response::status` and `Response::text` perform
/// one GET and hand back the response status and body text.  The values
/// depend on the network, so nothing is promised of them.
#[verifier::external_body]
fn http_get_raw(url: &str) -> (r: Result<(u16, String), KvError>)
    ensures
        r matches Err(e) ==> e is Dispatch,
{
    let res = reqwest::blocking::Client::new().get(url).send().map_err(
        |e| KvError::Dispatch(e.to_string()),
    )?;
    let code = res.status().as_u16();
    match res.text() {
        Ok(body) => Ok((code, body)),
        Err(e) => Err(KvError::Dispatch(e.to_string())),
    }
}

/// Relies on `reqwest::blocking`: `Client::new`, `Client::post`,
/// `RequestBuilder::header`, `RequestBuilder::body` and
/// `RequestBuilder::send` perform one POST of `body` as JSON, and
/// `Response::status` and `Response::text` hand back the response.  The
/// values depend on the network, so nothing is promised of them.
#[verifier::external_body]
fn http_post_raw(url: &str, body: Vec<u8>) -> (r: Result<(u16, String), KvError>)
    ensures
        r matches Err(e) ==> e is Dispatch,
{
    let res = reqwest::blocking::Client::new().post(url).header(
        "Content-Type",
        "application/json",
    ).body(body).send().map_err(|e| KvError::Dispatch(e.to_string()))?;
    let code = res.status().as_u16();
    match res.text() {
        Ok(b) => Ok((code, b)),
        Err(e) => Err(KvError::Dispatch(e.to_string())),
    }
}

/// Issues one GET notification to `url` with the `id` and `state` query
/// parameters appended; `info` is not transmitted.
pub fn get(id: &str, state: &str, url: &str) -> (r: Result<Response, KvError>)
    ensures
        r matches Ok(resp) ==> resp.id@ == id@,
        r matches Err(e) ==> e is Dispatch,
{
    let full = build_notify_url(url, id, state);
    match http_get_raw(full.as_str()) {
        Ok((code, body)) => Ok(Response { id: id.to_owned(), status_code: code, body }),
        Err(e) => Err(e),
    }
}

/// Issues one POST notification to `url` with the `id` and `state` query
/// parameters appended and a JSON body carrying `id`, `state` and `info`
/// (the empty string when absent).
pub fn post(id: &str, state: &str, info: &Option<String>, url: &str) -> (r: Result<
    Response,
    KvError,
>)
    ensures
        r matches Ok(resp) ==> resp.id@ == id@,
        r matches Err(e) ==> e is Dispatch,
{
    let full = build_notify_url(url, id, state);
    let body = build_post_body(id, state, info);
    match http_post_raw(full.as_str(), body) {
        Ok((code, b)) => Ok(Response { id: id.to_owned(), status_code: code, body: b }),
        Err(e) => Err(e),
    }
}

/// Performs the one outbound call a resolved target asks for.  The caller
/// resolves the target first; a `NONE` target must not be dispatched.
pub fn dispatch(target: &Notify, id: &str, state: &str, info: &Option<String>) -> (r: Result<
    Response,
    KvError,
>)
    requires
        target.method is GET || target.method is POST,
    ensures
        r matches Ok(resp) ==> resp.id@ == id@,
        r matches Err(e) ==> e is Dispatch,
{
    match target.method {
        Method::GET => get(id, state, target.url.as_str()),
        Method::POST => post(id, state, info, target.url.as_str()),
        Method::NONE => {
            proof {
                assert(false);
            }
            Err(KvError::Dispatch(String::new()))
        },
    }
}

} // verus!
