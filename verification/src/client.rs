//! The client of one cluster.
//!
//! A [`Kluster`] knows where its cluster is, whom it trusts and how it
//! proves who it is. Each operation decides what is sent and how the reply
//! is judged; the sending itself is the caller's, handed in as a closure
//! that takes a [`Request`] and the [`Transport`] to send it over.

use crate::auth::AuthView;
use crate::auth::KlusterAuth;
use crate::endpoint::join_url;
use crate::endpoint::parse_url;
use crate::endpoint::url_join;
use crate::endpoint::url_parse;
use crate::error::KubeError;
use crate::error::KubeErrorView;
use crate::json::decode_value;
use crate::json::decoded_value;
use crate::tls::built;
use crate::tls::bytes_of;
use crate::tls::chain_under;
use crate::tls::client_chain;
use crate::tls::TlsClient;
use crate::wire::answered;
use crate::wire::checked;
use crate::wire::classify;
use crate::wire::relayed;
use crate::wire::request_to;
use crate::wire::seen;
use crate::wire::Method;
use crate::wire::Outcome;
use crate::wire::Request;
use crate::wire::RequestView;
use crate::wire::Response;
use hyper::Url;
use serde_json::Value;
use std::time::Duration;
use vstd::prelude::*;

verus! {

/// What a request is sent over.
pub enum Transport {
    /// The connection settings the client was made with.
    Shared,
    /// A configuration built for this one request, so that what is set on
    /// the request cannot reach any other.
    Fresh(TlsClient),
}

/// One cluster, and all that is needed to talk to it.
pub struct Kluster {
    pub name: String,
    endpoint: Url,
    auth: KlusterAuth,
    cert_path: String,
    client: TlsClient,
}

/// The mathematical value of a [`Kluster`].
pub struct KlusterView {
    pub name: Seq<char>,
    pub endpoint: Url,
    pub auth: AuthView,
    pub cert_path: Seq<char>,
    pub client: TlsClient,
}

impl KlusterView {
    /// The shared configuration trusts at least one authority, and presents
    /// the chain of the identity where it is a certificate and nothing
    /// where it is a token: a client with a token never presents a
    /// certificate, and one with a certificate always does.
    pub open spec fn wf(self) -> bool {
        &&& self.client.wf()
        &&& client_chain(self.client.cfg) == chain_under(self.auth)
    }
}

impl View for Kluster {
    type V = KlusterView;

    closed spec fn view(&self) -> KlusterView {
        KlusterView {
            name: self.name@,
            endpoint: self.endpoint,
            auth: self.auth@,
            cert_path: self.cert_path@,
            client: self.client,
        }
    }
}

/// Whether `result` fails with exactly `error`.
pub open spec fn refused<T>(result: Result<T, KubeError>, error: KubeErrorView) -> bool {
    result matches Err(e) && e@ == error
}

/// The request that `method` on `path` comes to for a client: the path
/// joined onto the client's endpoint, the header its identity calls for, and
/// the timeout asked for. There is none where the path does not join.
pub open spec fn planned(
    client: KlusterView,
    method: Method,
    path: Seq<char>,
    timeout: Option<Duration>,
) -> Option<RequestView> {
    match url_join(client.endpoint, path) {
        None => None,
        Some(url) => Some(request_to(method, url, client.auth, timeout)),
    }
}

/// Whether `result` is what opening a client must give, where `ca` is what
/// reading the authority file gave.
pub open spec fn opened(
    result: Result<Kluster, KubeError>,
    name: Seq<char>,
    cert_path: Seq<char>,
    endpoint: Url,
    auth: AuthView,
    ca: Option<Seq<u8>>,
) -> bool {
    match result {
        Ok(client) => {
            &&& client@.name == name
            &&& client@.endpoint == endpoint
            &&& client@.auth == auth
            &&& client@.cert_path == cert_path
            &&& client@.wf()
            &&& built(ca, auth, Ok::<TlsClient, KubeError>(client@.client))
        },
        Err(error) => built(ca, auth, Err::<TlsClient, KubeError>(error)),
    }
}

/// Hands a reply on as it came, turning only the transport's failure into
/// the client's error.
pub fn relay<H>(reply: Result<Response<H>, String>) -> (result: Result<Response<H>, KubeError>)
    ensures
        seen(result) == relayed(reply),
{
    match reply {
        Ok(response) => Ok(response),
        Err(message) => Err(KubeError::TransportError(message)),
    }
}

impl Kluster {
    /// Builds the configuration of a client from the authority file at
    /// `cert_path`, which `read` fetches: its bytes, or nothing where they
    /// cannot be had. `read` is called once, with that path.
    pub fn make_tlsclient<R>(cert_path: &str, auth: &KlusterAuth, read: R) -> (result: Result<
        TlsClient,
        KubeError,
    >) where R: FnOnce(String) -> Option<Vec<u8>>
        requires
            forall|path: String| path@ == cert_path@ ==> read.requires((path,)),
        ensures
            exists|path: String, ca: Option<Vec<u8>>|
                path@ == cert_path@ && read.ensures((path,), ca) && built(
                    bytes_of(ca),
                    auth@,
                    result,
                ),
    {
        let path = cert_path.to_owned();
        let ca = read(path);
        let result = TlsClient::build(ca, auth);
        proof {
            assert(path@ == cert_path@ && read.ensures((path,), ca) && built(
                bytes_of(ca),
                auth@,
                result,
            ));
        }
        result
    }

    /// Opens a client for the cluster at `server`.
    ///
    /// The address is parsed first; a text that is no URL ends the call
    /// before anything is read. Then `read` fetches the authority file at
    /// `cert_path`, and the shared TLS configuration is built from it.
    pub fn new<R>(name: &str, cert_path: &str, server: &str, auth: KlusterAuth, read: R) -> (result:
        Result<Kluster, KubeError>) where R: FnOnce(String) -> Option<Vec<u8>>
        requires
            forall|path: String| path@ == cert_path@ ==> read.requires((path,)),
        ensures
            match url_parse(server@) {
                None => refused(result, KubeErrorView::UrlError(server@)),
                Some(endpoint) => exists|path: String, ca: Option<Vec<u8>>|
                    path@ == cert_path@ && read.ensures((path,), ca) && opened(
                        result,
                        name@,
                        cert_path@,
                        endpoint,
                        auth@,
                        bytes_of(ca),
                    ),
            },
    {
        let endpoint = match parse_url(server) {
            Ok(url) => url,
            Err(_) => {
                return Err(KubeError::UrlError(server.to_owned()));
            },
        };
        let client = match Kluster::make_tlsclient(cert_path, &auth, read) {
            Ok(client) => client,
            Err(error) => {
                return Err(error);
            },
        };
        Ok(
            Kluster {
                name: name.to_owned(),
                endpoint,
                auth,
                cert_path: cert_path.to_owned(),
                client,
            },
        )
    }

    /// The configuration that the shared connection of this client uses.
    pub fn tls(&self) -> (tls: &TlsClient)
        ensures
            *tls == self@.client,
    {
        &self.client
    }

    /// The address of the cluster.
    pub fn endpoint(&self) -> (url: &Url)
        ensures
            *url == self@.endpoint,
    {
        &self.endpoint
    }

    /// The identity this client proves itself with.
    pub fn auth(&self) -> (auth: &KlusterAuth)
        ensures
            auth@ == self@.auth,
    {
        &self.auth
    }

    /// The name this client was opened under.
    pub fn name(&self) -> (name: &str)
        ensures
            name@ == self@.name,
    {
        self.name.as_str()
    }

    /// The path of the authority file this client was opened with, kept so
    /// that a configuration can be built again.
    pub fn cert_path(&self) -> (path: &str)
        ensures
            path@ == self@.cert_path,
    {
        self.cert_path.as_str()
    }

    /// The request that `method` on `path` comes to, or the error for a
    /// path that does not join onto the endpoint.
    pub fn request(&self, method: Method, path: &str, timeout: Option<Duration>) -> (result: Result<
        Request,
        KubeError,
    >)
        ensures
            match planned(self@, method, path@, timeout) {
                None => refused(result, KubeErrorView::UrlError(path@)),
                Some(plan) => result matches Ok(request) && request@ == plan,
            },
    {
        let url = match join_url(&self.endpoint, path) {
            Ok(url) => url,
            Err(_) => {
                return Err(KubeError::UrlError(path.to_owned()));
            },
        };
        Ok(Request::new(method, url, &self.auth, timeout))
    }

    /// Sends a GET for `path` over the shared connection and hands the
    /// reply on unjudged.
    pub fn send_req<H, X>(&self, path: &str, exchange: X) -> (result: Result<
        Response<H>,
        KubeError,
    >) where X: FnOnce(Request, Transport) -> Result<Response<H>, String>
        requires
            forall|request: Request|
                planned(self@, Method::Get, path@, None) == Some(request@) ==> exchange.requires(
                    (request, Transport::Shared),
                ),
        ensures
            match planned(self@, Method::Get, path@, None) {
                None => refused(result, KubeErrorView::UrlError(path@)),
                Some(plan) => exists|request: Request, reply: Result<Response<H>, String>|
                    request@ == plan && exchange.ensures((request, Transport::Shared), reply)
                        && seen(result) == relayed(reply),
            },
    {
        let request = match self.request(Method::Get, path, None) {
            Ok(request) => request,
            Err(error) => {
                return Err(error);
            },
        };
        let reply = exchange(request, Transport::Shared);
        let result = relay(reply);
        proof {
            assert(exchange.ensures((request, Transport::Shared), reply) && seen(result)
                == relayed(reply));
        }
        result
    }

    /// Judges a reply: 200 passes, 401 is `Unauthorized`, any other status
    /// is `OtherFailure` with that status.
    pub fn check_resp<H>(&self, resp: Response<H>) -> (result: Result<Response<H>, KubeError>)
        ensures
            seen(result) == checked(resp),
    {
        let status = resp.status;
        match classify(status, resp) {
            Outcome::Success(resp) => Ok(resp),
            Outcome::Unauthorized => Err(KubeError::Unauthorized),
            Outcome::OtherFailure(status) => Err(KubeError::OtherFailure(status)),
        }
    }

    /// Gets a resource and hands back the reply with its body unread, for
    /// bodies that are large or never end.
    ///
    /// Without a timeout the request goes over the shared connection. With
    /// one, nothing is shared: `read` fetches the authority file again, a
    /// configuration is built from it for this request alone, and the
    /// request carries the timeout. Either way the reply is judged by its
    /// status.
    pub fn get_read<H, R, X>(
        &self,
        path: &str,
        timeout: Option<Duration>,
        read: R,
        exchange: X,
    ) -> (result: Result<Response<H>, KubeError>) where
        R: FnOnce(String) -> Option<Vec<u8>>,
        X: FnOnce(Request, Transport) -> Result<Response<H>, String>,

        requires
            forall|file: String| file@ == self@.cert_path ==> read.requires((file,)),
            forall|request: Request, transport: Transport|
                planned(self@, Method::Get, path@, timeout) == Some(request@)
                    ==> exchange.requires((request, transport)),
        ensures
            match planned(self@, Method::Get, path@, timeout) {
                None => refused(result, KubeErrorView::UrlError(path@)),
                Some(plan) => match timeout {
                    None => exists|request: Request, reply: Result<Response<H>, String>|
                        request@ == plan && exchange.ensures((request, Transport::Shared), reply)
                            && seen(result) == answered(reply),
                    Some(_) => exists|file: String, ca: Option<Vec<u8>>|
                        file@ == self@.cert_path && read.ensures((file,), ca) && fresh_read(
                            exchange,
                            plan,
                            bytes_of(ca),
                            self@.auth,
                            result,
                        ),
                },
            },
    {
        if timeout.is_some() {
            let request = match self.request(Method::Get, path, timeout) {
                Ok(request) => request,
                Err(error) => {
                    return Err(error);
                },
            };
            let tls = match Kluster::make_tlsclient(self.cert_path.as_str(), &self.auth, read) {
                Ok(tls) => tls,
                Err(error) => {
                    return Err(error);
                },
            };
            let reply = exchange(request, Transport::Fresh(tls));
            let result = match reply {
                Ok(resp) => self.check_resp(resp),
                Err(message) => Err(KubeError::TransportError(message)),
            };
            proof {
                assert(exchange.ensures((request, Transport::Fresh(tls)), reply) && seen(result)
                    == answered(reply));
            }
            result
        } else {
            self.get_read_shared(path, exchange)
        }
    }

    /// Deletes the resource at `path` and hands the reply on as it came:
    /// the status is not judged, so a reply with any status is a success of
    /// this call and only a failure of the transport is an error.
    pub fn delete<H, X>(&self, path: &str, exchange: X) -> (result: Result<
        Response<H>,
        KubeError,
    >) where X: FnOnce(Request, Transport) -> Result<Response<H>, String>
        requires
            forall|request: Request|
                planned(self@, Method::Delete, path@, None) == Some(request@)
                    ==> exchange.requires((request, Transport::Shared)),
        ensures
            match planned(self@, Method::Delete, path@, None) {
                None => refused(result, KubeErrorView::UrlError(path@)),
                Some(plan) => exists|request: Request, reply: Result<Response<H>, String>|
                    request@ == plan && exchange.ensures((request, Transport::Shared), reply)
                        && seen(result) == relayed(reply),
            },
    {
        let request = match self.request(Method::Delete, path, None) {
            Ok(request) => request,
            Err(error) => {
                return Err(error);
            },
        };
        let reply = exchange(request, Transport::Shared);
        let result = relay(reply);
        proof {
            assert(exchange.ensures((request, Transport::Shared), reply) && seen(result)
                == relayed(reply));
        }
        result
    }

    /// Gets a resource and decodes its body as untyped JSON, for callers
    /// that inspect or forward it without a schema.
    ///
    /// The request goes over the shared connection and the reply is judged
    /// by its status; only then does `read_body` drain the body, and what
    /// it yields is parsed.
    pub fn get_value<H, X, B>(&self, path: &str, exchange: X, read_body: B) -> (result: Result<
        Value,
        KubeError,
    >) where
        X: FnOnce(Request, Transport) -> Result<Response<H>, String>,
        B: FnOnce(H) -> Result<Vec<u8>, String>,

        requires
            forall|request: Request|
                planned(self@, Method::Get, path@, None) == Some(request@) ==> exchange.requires(
                    (request, Transport::Shared),
                ),
            forall|handle: H| read_body.requires((handle,)),
        ensures
            match planned(self@, Method::Get, path@, None) {
                None => refused(result, KubeErrorView::UrlError(path@)),
                Some(plan) => exists|request: Request, reply: Result<Response<H>, String>|
                    request@ == plan && exchange.ensures((request, Transport::Shared), reply)
                        && match answered(reply) {
                        Err(error) => refused(result, error),
                        Ok(response) => value_read(read_body, response.body, result),
                    },
            },
    {
        let resp = match self.get_read_shared(path, exchange) {
            Ok(resp) => resp,
            Err(error) => {
                return Err(error);
            },
        };
        let body = read_body(resp.body);
        let result = match body {
            Ok(bytes) => decode_value(bytes.as_slice()),
            Err(message) => Err(KubeError::TransportError(message)),
        };
        proof {
            assert(read_body.ensures((resp.body,), body));
            assert(value_read(read_body, resp.body, result));
        }
        result
    }

    /// Gets a resource and decodes its body as a `T`.
    ///
    /// The request goes over the shared connection and the reply is judged
    /// by its status; only then does `read_body` drain the body, and
    /// `decode` turns what it yields into a `T` or says why it cannot.
    pub fn get<T, H, X, B, D>(&self, path: &str, exchange: X, read_body: B, decode: D) -> (result:
        Result<T, KubeError>) where
        X: FnOnce(Request, Transport) -> Result<Response<H>, String>,
        B: FnOnce(H) -> Result<Vec<u8>, String>,
        D: FnOnce(Vec<u8>) -> Result<T, String>,

        requires
            forall|request: Request|
                planned(self@, Method::Get, path@, None) == Some(request@) ==> exchange.requires(
                    (request, Transport::Shared),
                ),
            forall|handle: H| read_body.requires((handle,)),
            forall|bytes: Vec<u8>| decode.requires((bytes,)),
        ensures
            match planned(self@, Method::Get, path@, None) {
                None => refused(result, KubeErrorView::UrlError(path@)),
                Some(plan) => exists|request: Request, reply: Result<Response<H>, String>|
                    request@ == plan && exchange.ensures((request, Transport::Shared), reply)
                        && match answered(reply) {
                        Err(error) => refused(result, error),
                        Ok(response) => typed_read(read_body, decode, response.body, result),
                    },
            },
    {
        let resp = match self.get_read_shared(path, exchange) {
            Ok(resp) => resp,
            Err(error) => {
                return Err(error);
            },
        };
        let body = read_body(resp.body);
        let result = match body {
            Ok(bytes) => {
                let decoded = decode(bytes);
                let result = match decoded {
                    Ok(value) => Ok(value),
                    Err(message) => Err(KubeError::DeserializeError(message)),
                };
                proof {
                    assert(decode.ensures((bytes,), decoded));
                    assert(typed_decode(decode, bytes, result));
                }
                result
            },
            Err(message) => Err(KubeError::TransportError(message)),
        };
        proof {
            assert(read_body.ensures((resp.body,), body));
            assert(typed_read(read_body, decode, resp.body, result));
        }
        result
    }

    /// Sends a GET for `path` over the shared connection and judges the
    /// reply by its status.
    fn get_read_shared<H, X>(&self, path: &str, exchange: X) -> (result: Result<
        Response<H>,
        KubeError,
    >) where X: FnOnce(Request, Transport) -> Result<Response<H>, String>
        requires
            forall|request: Request|
                planned(self@, Method::Get, path@, None) == Some(request@) ==> exchange.requires(
                    (request, Transport::Shared),
                ),
        ensures
            match planned(self@, Method::Get, path@, None) {
                None => refused(result, KubeErrorView::UrlError(path@)),
                Some(plan) => exists|request: Request, reply: Result<Response<H>, String>|
                    request@ == plan && exchange.ensures((request, Transport::Shared), reply)
                        && seen(result) == answered(reply),
            },
    {
        let resp = match self.send_req(path, exchange) {
            Ok(resp) => resp,
            Err(error) => {
                return Err(error);
            },
        };
        self.check_resp(resp)
    }
}

/// Whether `result` is what draining the body behind `handle` and parsing
/// it as untyped JSON must give: the transport's failure where the body
/// cannot be had, else the outcome of the parse.
pub open spec fn value_read<H, B>(read_body: B, handle: H, result: Result<Value, KubeError>) -> bool where
    B: FnOnce(H) -> Result<Vec<u8>, String>,
 {
    exists|body: Result<Vec<u8>, String>| #[trigger]
        read_body.ensures((handle,), body) && match body {
            Err(message) => refused(result, KubeErrorView::TransportError(message@)),
            Ok(bytes) => seen(result) == decoded_value(bytes@),
        }
}

/// Whether `result` is what decoding `bytes` must give: the decoded value,
/// or a deserialization error with the decoder's complaint.
pub open spec fn typed_decode<T, D>(decode: D, bytes: Vec<u8>, result: Result<T, KubeError>) -> bool where
    D: FnOnce(Vec<u8>) -> Result<T, String>,
 {
    exists|decoded: Result<T, String>| #[trigger]
        decode.ensures((bytes,), decoded) && match decoded {
            Ok(value) => result matches Ok(given) && given == value,
            Err(message) => refused(result, KubeErrorView::DeserializeError(message@)),
        }
}

/// Whether `result` is what draining the body behind `handle` and decoding
/// it must give: the transport's failure where the body cannot be had, else
/// the outcome of the decoder.
pub open spec fn typed_read<T, H, B, D>(
    read_body: B,
    decode: D,
    handle: H,
    result: Result<T, KubeError>,
) -> bool where B: FnOnce(H) -> Result<Vec<u8>, String>, D: FnOnce(Vec<u8>) -> Result<T, String> {
    exists|body: Result<Vec<u8>, String>| #[trigger]
        read_body.ensures((handle,), body) && match body {
            Err(message) => refused(result, KubeErrorView::TransportError(message@)),
            Ok(bytes) => typed_decode(decode, bytes, result),
        }
}

/// Whether `result` is what a read over a configuration of its own must
/// give, where `ca` is what reading the authority file gave: the error of a
/// configuration that cannot be built, or else the judgement on the reply
/// that `exchange` gave to the planned request over that configuration.
pub open spec fn fresh_read<H, X>(
    exchange: X,
    plan: RequestView,
    ca: Option<Seq<u8>>,
    auth: AuthView,
    result: Result<Response<H>, KubeError>,
) -> bool where X: FnOnce(Request, Transport) -> Result<Response<H>, String> {
    match crate::tls::tls_outcome(ca, auth) {
        Err(fault) => refused(result, KubeErrorView::ConfigError(fault)),
        Ok(_) => exists|request: Request, tls: TlsClient, reply: Result<Response<H>, String>|
            request@ == plan && built(ca, auth, Ok::<TlsClient, KubeError>(tls))
                && #[trigger] exchange.ensures((request, Transport::Fresh(tls)), reply) && seen(result)
                == answered(reply),
    }
}

} // verus!
