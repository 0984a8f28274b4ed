//! How a client proves who it is: a bearer token, or a certificate and key
//! presented during the TLS handshake.

use rustls::Certificate;
use rustls::PrivateKey;
use vstd::prelude::*;

verus! {

/// `rustls::Certificate`: one DER-encoded X.509 certificate, carried through
/// unread.
#[verifier::external_type_specification]
#[verifier::external_body]
pub struct ExCertificate(Certificate);

/// `rustls::PrivateKey`: one DER-encoded private key, carried through unread.
#[verifier::external_type_specification]
#[verifier::external_body]
pub struct ExPrivateKey(PrivateKey);

/// Auth is either a token or a certificate chain with its key, never both.
pub enum KlusterAuth {
    Token(String),
    CertKey(Vec<Certificate>, PrivateKey),
}

/// The mathematical value of a [`KlusterAuth`].
pub enum AuthView {
    Token(Seq<char>),
    CertKey(Seq<Certificate>, PrivateKey),
}

impl View for KlusterAuth {
    type V = AuthView;

    open spec fn view(&self) -> AuthView {
        match self {
            KlusterAuth::Token(token) => AuthView::Token(token@),
            KlusterAuth::CertKey(chain, key) => AuthView::CertKey(chain@, *key),
        }
    }
}

/// The text that introduces a bearer token in an `Authorization` header.
pub open spec fn bearer_prefix() -> Seq<char> {
    seq!['B', 'e', 'a', 'r', 'e', 'r', ' ']
}

/// The value of the `Authorization` header that carries `token`.
pub open spec fn bearer_value(token: Seq<char>) -> Seq<char> {
    bearer_prefix() + token
}

/// The `Authorization` header that a request made under `auth` carries: the
/// bearer token, or none where the identity is a certificate, which is
/// presented in the handshake instead.
pub open spec fn authorization_of(auth: AuthView) -> Option<Seq<char>> {
    match auth {
        AuthView::Token(token) => Some(bearer_value(token)),
        AuthView::CertKey(_, _) => None,
    }
}

/// The view of an optional text.
pub open spec fn text_of(text: Option<String>) -> Option<Seq<char>> {
    match text {
        Some(t) => Some(t@),
        None => None,
    }
}

impl KlusterAuth {
    /// Authenticate with a bearer token. The token is taken as it is.
    pub fn with_token(token: &str) -> (auth: KlusterAuth)
        ensures
            auth@ == AuthView::Token(token@),
    {
        KlusterAuth::Token(token.to_owned())
    }

    /// Authenticate with a client certificate. The chain holds exactly the
    /// certificate given; neither it nor the key is examined here.
    pub fn with_cert_and_key(cert: Certificate, private_key: PrivateKey) -> (auth: KlusterAuth)
        ensures
            auth@ == AuthView::CertKey(seq![cert], private_key),
    {
        let mut chain: Vec<Certificate> = Vec::new();
        chain.push(cert);
        proof {
            assert(chain@ =~= seq![cert]);
        }
        KlusterAuth::CertKey(chain, private_key)
    }

    /// The value of the `Authorization` header of every request made under
    /// this identity, if it has one.
    pub fn authorization(&self) -> (header: Option<String>)
        ensures
            text_of(header) == authorization_of(self@),
    {
        match self {
            KlusterAuth::Token(token) => {
                let mut value = String::from_str("Bearer ");
                value.append(token.as_str());
                proof {
                    reveal_strlit("Bearer ");
                    assert("Bearer "@ =~= bearer_prefix());
                }
                Some(value)
            },
            KlusterAuth::CertKey(_, _) => None,
        }
    }
}

} // verus!
