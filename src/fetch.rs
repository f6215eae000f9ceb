//! Outbound HTTP: what the fetch bridge makes of the host's answer, and what
//! the caller makes of the reply that reaches it.
use vstd::prelude::*;

verus! {

#[verifier::external_type_specification]
#[verifier::external_body]
pub struct ExInvalidStatusCode(http::status::InvalidStatusCode);

#[verifier::external_type_specification]
#[verifier::external_body]
#[verifier::reject_recursive_types(T)]
pub struct ExHeaderMap<T>(http::HeaderMap<T>);

#[verifier::external_type_specification]
#[verifier::external_body]
pub struct ExHeaderValue(http::HeaderValue);

/// The headers that a header map holds: each name with its values.
pub uninterp spec fn header_entries(h: http::HeaderMap) -> Map<Seq<char>, Seq<Seq<u8>>>;

/// Relies on `http::HeaderMap::new`: the map it makes holds no header.
pub assume_specification[ http::HeaderMap::new ]() -> (r: http::HeaderMap)
    ensures
        header_entries(r).dom().is_empty(),
;

/// Relies on `http::StatusCode::from_u16`, which accepts exactly the codes
/// 100 through 999, and on `StatusCode::as_u16`, which gives back the code
/// that the status was made from.
#[verifier::external_body]
fn status_from_u16(code: u16) -> (r: Result<u16, http::status::InvalidStatusCode>)
    ensures
        r is Ok <==> 100 <= code <= 999,
        r is Ok ==> r->Ok_0 == code,
{
    http::StatusCode::from_u16(code).map(|s| s.as_u16())
}

/// Why a request gave no response.
#[derive(Debug, PartialEq, Eq)]
pub enum RequestError {
    /// The host's fetch failed, or reading the body failed.
    Transport(String),
    /// The host answered with a status that is no HTTP status code.
    InvalidStatus(u16),
    /// The task that ran the request ended without replying.
    NotDelivered,
}

/// A valid HTTP status code.
pub open spec fn valid_status(code: u16) -> bool {
    100 <= code <= 999
}

/// What the host's answer says before its body is read.
#[derive(Debug, Clone, Copy, PartialEq, Eq, Structural)]
pub struct ResponseHead {
    pub redirected: bool,
    pub status: u16,
}

/// A response handed back to the engine. The host's fetch gives no way to
/// read the response headers, so the header map is always empty.
#[derive(Debug)]
pub struct HttpResponse {
    pub redirected: bool,
    pub status: u16,
    pub headers: http::HeaderMap,
    pub body: Option<Vec<u8>>,
}

/// Decodes the status that the host reported: a request whose status is no
/// HTTP status code fails, with that code.
pub fn response_head(redirected: bool, status: u16) -> (r: Result<ResponseHead, RequestError>)
    ensures
        r is Ok <==> valid_status(status),
        r is Ok ==> r->Ok_0 == (ResponseHead { redirected, status }),
        r is Err ==> r->Err_0 == RequestError::InvalidStatus(status),
{
    match status_from_u16(status) {
        Ok(code) => Ok(ResponseHead { redirected, status: code }),
        Err(_) => Err(RequestError::InvalidStatus(status)),
    }
}

impl ResponseHead {
    /// The response made of this head and the body read in full.
    pub fn into_response(self, body: Vec<u8>) -> (r: HttpResponse)
        ensures
            r.redirected == self.redirected,
            r.status == self.status,
            header_entries(r.headers).dom().is_empty(),
            r.body == Some(body),
    {
        HttpResponse {
            redirected: self.redirected,
            status: self.status,
            headers: http::HeaderMap::new(),
            body: Some(body),
        }
    }
}

/// What the caller of a request sees: the reply that the request task sent,
/// or, where the task ended without sending one, `NotDelivered`.
pub fn settle_request(reply: Option<Result<HttpResponse, RequestError>>) -> (r: Result<
    HttpResponse,
    RequestError,
>)
    ensures
        reply is Some ==> r == reply->Some_0,
        reply is None ==> r == Err::<HttpResponse, RequestError>(RequestError::NotDelivered),
{
    match reply {
        Some(res) => res,
        None => Err(RequestError::NotDelivered),
    }
}

} // verus!
