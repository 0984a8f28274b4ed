//! What holds of every client, request and reply, proved from the
//! definitions the contracts are written in.

use crate::auth::authorization_of;
use crate::auth::bearer_prefix;
use crate::auth::bearer_value;
use crate::auth::AuthView;
use crate::client::opened;
use crate::client::planned;
use crate::client::refused;
use crate::client::Kluster;
use crate::client::KlusterView;
use crate::error::ConfigFault;
use crate::error::KubeError;
use crate::error::KubeErrorView;
use crate::tls::built;
use crate::tls::chain_under;
use crate::tls::client_chain;
use crate::tls::key_usable;
use crate::tls::pem_certificates;
use crate::tls::presents_identity;
use crate::tls::trust_anchors;
use crate::tls::TlsClient;
use crate::wire::answered;
use crate::wire::checked;
use crate::wire::classified;
use crate::wire::relayed;
use crate::wire::Method;
use crate::wire::Outcome;
use crate::wire::Response;
use hyper::Url;
use std::time::Duration;
use vstd::prelude::*;

verus! {

/// Building a configuration from an authority file that can be read
/// succeeds when the file holds at least one usable certificate and the
/// identity is a token or a certificate with a usable key. It fails with a
/// configuration error when the file holds no usable certificate, whatever
/// else it holds. Certificates that were left out never make it fail.
pub proof fn authority_file_decides_the_build(
    pem: Seq<u8>,
    auth: AuthView,
    result: Result<TlsClient, KubeError>,
)
    requires
        built(Some(pem), auth, result),
    ensures
        pem_certificates(pem) matches Ok((added, rejected)) ==> {
            &&& added >= 1 && auth is Token ==> result is Ok
            &&& added >= 1 && auth is CertKey && key_usable(auth->CertKey_1) ==> result is Ok
            &&& added == 0 ==> refused(result, KubeErrorView::ConfigError(ConfigFault::NoCertificate))
        },
        pem_certificates(pem) is Err ==> refused(
            result,
            KubeErrorView::ConfigError(ConfigFault::Malformed),
        ),
        result matches Ok(tls) ==> trust_anchors(tls.cfg) >= 1 && pem_certificates(pem) == Ok::<
            (usize, usize),
            (),
        >((tls.added, tls.rejected)),
{
}

/// An authority file that cannot be read is a configuration error.
pub proof fn unreadable_authority_file_fails(auth: AuthView, result: Result<TlsClient, KubeError>)
    requires
        built(None, auth, result),
    ensures
        refused(result, KubeErrorView::ConfigError(ConfigFault::Unreadable)),
{
}

/// Every request of a client with a token, whatever its method, path and
/// timeout, carries the header `Authorization: Bearer <token>` with exactly
/// that token; no request of a client with a certificate carries the header.
pub proof fn requests_carry_the_token(
    client: KlusterView,
    method: Method,
    path: Seq<char>,
    timeout: Option<Duration>,
)
    requires
        planned(client, method, path, timeout) is Some,
    ensures
        client.auth matches AuthView::Token(token) ==> planned(
            client,
            method,
            path,
            timeout,
        )->0.authorization == Some(bearer_value(token)),
        client.auth is CertKey ==> planned(client, method, path, timeout)->0.authorization is None,
{
}

/// The header value of a token is the seven characters `Bearer ` and then
/// the token, unaltered: the token can be read back from it, so two tokens
/// never share a header.
pub proof fn bearer_value_holds_the_token(token: Seq<char>, other: Seq<char>)
    ensures
        bearer_value(token).len() == 7 + token.len(),
        bearer_value(token).take(7) == bearer_prefix(),
        bearer_value(token).skip(7) == token,
        bearer_value(token) == bearer_value(other) ==> token == other,
{
    assert(bearer_value(token).take(7) =~= bearer_prefix());
    assert(bearer_value(token).skip(7) =~= token);
    assert(bearer_value(other).skip(7) =~= other);
}

/// A client that was opened is of one mode only: with a token it sends the
/// header and presents no certificate, with a certificate it presents it and
/// sends no header.
pub proof fn modes_exclude_each_other(
    result: Result<Kluster, KubeError>,
    name: Seq<char>,
    cert_path: Seq<char>,
    endpoint: Url,
    auth: AuthView,
    ca: Option<Seq<u8>>,
)
    requires
        opened(result, name, cert_path, endpoint, auth, ca),
    ensures
        result matches Ok(client) ==> {
            &&& presents_identity(client@.client.cfg) == (client@.auth is CertKey)
            &&& authorization_of(client@.auth) is Some == (client@.auth is Token)
            &&& presents_identity(client@.client.cfg) != (authorization_of(client@.auth) is Some)
            &&& client_chain(client@.client.cfg) == chain_under(client@.auth)
            &&& trust_anchors(client@.client.cfg) >= 1
        },
{
}

/// A status is judged by its value alone: 200 is the one success, 401 the
/// one refusal, and every other status is a failure that keeps its value.
pub proof fn status_alone_decides<B>(status: u16, body: B)
    ensures
        status == 200 <==> classified(status, body) == Outcome::Success(body),
        status == 401 <==> classified(status, body) == Outcome::<B>::Unauthorized,
        status != 200 && status != 401 <==> classified(status, body) == Outcome::<B>::OtherFailure(
            status,
        ),
{
}

/// A timeout changes nothing of a read but the timeout: with and without
/// one the request goes to the same address with the same method and the
/// same header, and the same reply is judged the same way.
pub proof fn timeout_changes_only_the_timeout(
    client: KlusterView,
    path: Seq<char>,
    timeout: Duration,
)
    ensures
        planned(client, Method::Get, path, None) is Some == planned(
            client,
            Method::Get,
            path,
            Some(timeout),
        ) is Some,
        planned(client, Method::Get, path, None) matches Some(plain) ==> {
            let timed = planned(client, Method::Get, path, Some(timeout))->0;
            &&& timed.method == plain.method
            &&& timed.url == plain.url
            &&& timed.authorization == plain.authorization
            &&& timed.read_timeout == Some(timeout)
            &&& plain.read_timeout is None
        },
{
}

/// A reply that is relayed, as a deletion's is, is a success whatever its
/// status; the same reply, judged as a read's is, is a success only with
/// status 200.
pub proof fn relayed_replies_are_not_judged<H>(response: Response<H>)
    ensures
        relayed(Ok::<Response<H>, String>(response)) == Ok::<Response<H>, KubeErrorView>(response),
        answered(Ok::<Response<H>, String>(response)) is Ok <==> response.status == 200,
        response.status == 401 ==> checked(response) == Err::<Response<H>, KubeErrorView>(
            KubeErrorView::Unauthorized,
        ),
        response.status != 200 && response.status != 401 ==> checked(response) == Err::<
            Response<H>,
            KubeErrorView,
        >(KubeErrorView::OtherFailure(response.status)),
{
}

/// A failure of the transport is reported as such, with the transport's own
/// words, whether the reply would have been judged or not.
pub proof fn transport_failures_are_passed_on<H>(message: String)
    ensures
        relayed(Err::<Response<H>, String>(message)) == Err::<Response<H>, KubeErrorView>(
            KubeErrorView::TransportError(message@),
        ),
        answered(Err::<Response<H>, String>(message)) == Err::<Response<H>, KubeErrorView>(
            KubeErrorView::TransportError(message@),
        ),
{
}

} // verus!
