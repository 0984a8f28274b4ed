//! What goes over the wire, as plain values: the request a client wants
//! sent, the reply that came back, and the judgement passed on its status.

use crate::auth::authorization_of;
use crate::auth::text_of;
use crate::auth::AuthView;
use crate::auth::KlusterAuth;
use crate::error::KubeError;
use crate::error::KubeErrorView;
use hyper::Url;
use std::time::Duration;
use vstd::prelude::*;

verus! {

/// The two things a client asks of a cluster.
#[derive(Debug, Clone, Copy, PartialEq, Eq, Structural)]
pub enum Method {
    Get,
    Delete,
}

/// One request, ready to be sent.
#[derive(Debug, PartialEq, Eq)]
pub struct Request {
    pub method: Method,
    /// The absolute address the request goes to.
    pub url: Url,
    /// The value of the `Authorization` header; without it the header is absent.
    pub authorization: Option<String>,
    /// How long a read on the reply may block; without it, forever.
    pub read_timeout: Option<Duration>,
}

/// The mathematical value of a [`Request`].
pub struct RequestView {
    pub method: Method,
    pub url: Url,
    pub authorization: Option<Seq<char>>,
    pub read_timeout: Option<Duration>,
}

impl View for Request {
    type V = RequestView;

    open spec fn view(&self) -> RequestView {
        RequestView {
            method: self.method,
            url: self.url,
            authorization: text_of(self.authorization),
            read_timeout: self.read_timeout,
        }
    }
}

/// The request that `method` on the address `url` comes to under `auth`:
/// it carries the header the identity calls for, and the timeout asked for.
pub open spec fn request_to(
    method: Method,
    url: Url,
    auth: AuthView,
    timeout: Option<Duration>,
) -> RequestView {
    RequestView { method, url, authorization: authorization_of(auth), read_timeout: timeout }
}

impl Request {
    /// Makes the request for `method` on the address `url` under `auth`.
    pub fn new(method: Method, url: Url, auth: &KlusterAuth, timeout: Option<Duration>) -> (request:
        Request)
        ensures
            request@ == request_to(method, url, auth@, timeout),
    {
        Request { method, url, authorization: auth.authorization(), read_timeout: timeout }
    }
}

/// A reply: the status the server gave, and a handle on the body, which may
/// be a buffer or a stream not yet read.
#[derive(Debug, PartialEq, Eq)]
pub struct Response<H> {
    pub status: u16,
    pub body: H,
}

/// The judgement passed on a reply.
#[derive(Debug, PartialEq, Eq)]
pub enum Outcome<B> {
    /// Status 200; the body is handed on untouched.
    Success(B),
    /// Status 401.
    Unauthorized,
    /// Any other status, kept for diagnostics; the body is dropped.
    OtherFailure(u16),
}

/// The judgement on a status: 200 is success, 401 is a refusal to
/// authenticate, everything else is a failure that keeps its status.
pub open spec fn classified<B>(status: u16, body: B) -> Outcome<B> {
    if status == 200 {
        Outcome::Success(body)
    } else if status == 401 {
        Outcome::Unauthorized
    } else {
        Outcome::OtherFailure(status)
    }
}

/// Judges a reply by its status alone, once and without retrying.
pub fn classify<B>(status: u16, body: B) -> (outcome: Outcome<B>)
    ensures
        outcome == classified(status, body),
{
    if status == 200 {
        Outcome::Success(body)
    } else if status == 401 {
        Outcome::Unauthorized
    } else {
        Outcome::OtherFailure(status)
    }
}

/// A result as contracts see it: the error by its view, the value as it is.
pub open spec fn seen<T>(result: Result<T, KubeError>) -> Result<T, KubeErrorView> {
    match result {
        Ok(value) => Ok(value),
        Err(error) => Err(error@),
    }
}

/// What a caller gets for a reply that is passed on unjudged: the reply, or
/// the transport's failure.
pub open spec fn relayed<H>(reply: Result<Response<H>, String>) -> Result<
    Response<H>,
    KubeErrorView,
> {
    match reply {
        Ok(response) => Ok(response),
        Err(message) => Err(KubeErrorView::TransportError(message@)),
    }
}

/// What a caller gets for a reply that arrived: the reply itself on 200, and
/// an error that tells 401 from every other status.
pub open spec fn checked<H>(response: Response<H>) -> Result<Response<H>, KubeErrorView> {
    match classified(response.status, response) {
        Outcome::Success(response) => Ok(response),
        Outcome::Unauthorized => Err(KubeErrorView::Unauthorized),
        Outcome::OtherFailure(status) => Err(KubeErrorView::OtherFailure(status)),
    }
}

/// What a caller gets for a reply that is judged: the transport's failure,
/// or the judgement on what arrived.
pub open spec fn answered<H>(reply: Result<Response<H>, String>) -> Result<
    Response<H>,
    KubeErrorView,
> {
    match reply {
        Ok(response) => checked(response),
        Err(message) => Err(KubeErrorView::TransportError(message@)),
    }
}

} // verus!
