//! The TLS configuration of a client: which certificate authority it trusts
//! and which identity, if any, it presents.
//!
//! The configuration itself belongs to `rustls`. This module decides what
//! goes into it and when building it fails, and names the few things that
//! `rustls` lets a caller observe of the result.

use crate::auth::text_of;
use crate::auth::AuthView;
use crate::auth::KlusterAuth;
use crate::error::ConfigFault;
use crate::error::KubeError;
use crate::error::KubeErrorView;
use rustls::Certificate;
use rustls::ClientConfig;
use rustls::PrivateKey;
use rustls::TLSError;
use vstd::prelude::*;

verus! {

/// `rustls::ClientConfig`: the settings of a TLS client.
#[verifier::external_type_specification]
#[verifier::external_body]
pub struct ExClientConfig(ClientConfig);

/// `rustls::TLSError`: why `rustls` refused something.
#[verifier::external_type_specification]
#[verifier::external_body]
pub struct ExTLSError(TLSError);

/// What `RootCertStore::add_pem_file` returns for the bytes of a PEM file:
/// how many certificates it took as trust anchors and how many it found but
/// could not use, or an error where the file is not well-formed PEM.
pub uninterp spec fn pem_certificates(pem: Seq<u8>) -> Result<(usize, usize), ()>;

/// What `RootCertStore::len` returns for the trust store of a configuration:
/// the number of trust anchors in it.
pub uninterp spec fn trust_anchors(cfg: ClientConfig) -> nat;

/// What `ResolvesClientCert::resolve` returns for the resolver of a
/// configuration when asked without constraints: the certificate chain the
/// client presents in the handshake, or nothing where it presents none.
pub uninterp spec fn client_chain(cfg: ClientConfig) -> Option<Seq<Certificate>>;

/// Whether a client of this configuration presents a certificate.
pub open spec fn presents_identity(cfg: ClientConfig) -> bool {
    client_chain(cfg) is Some
}

/// The view of a certificate chain that may be missing.
pub open spec fn chain_of(chain: Option<Vec<Certificate>>) -> Option<Seq<Certificate>> {
    match chain {
        Some(c) => Some(c@),
        None => None,
    }
}

/// Whether `ClientConfig::set_single_client_cert` accepts a private key, that
/// is, whether the key is in an encoding that `rustls` can sign with.
pub uninterp spec fn key_usable(key: PrivateKey) -> bool;

/// Calls `ClientConfig::new`. As its source shows, the trust store of the
/// result is empty and its resolver never offers a certificate.
#[verifier::external_body]
pub(crate) fn new_config() -> (cfg: ClientConfig)
    ensures
        trust_anchors(cfg) == 0,
        client_chain(cfg) is None,
{
    ClientConfig::new()
}

/// Calls `RootCertStore::add_pem_file` on the trust store of `cfg`, reading
/// from memory. The source decodes the whole file before it adds anything,
/// and then pushes one trust anchor per certificate it counts as added; it
/// touches nothing else.
#[verifier::external_body]
pub(crate) fn add_pem_file(cfg: &mut ClientConfig, pem: &[u8]) -> (r: Result<(usize, usize), ()>)
    ensures
        r == pem_certificates(pem@),
        trust_anchors(*final(cfg)) == trust_anchors(*old(cfg)) + match r {
            Ok((added, _)) => added,
            Err(_) => 0,
        },
        client_chain(*final(cfg)) == client_chain(*old(cfg)),
{
    let mut reader = pem;
    cfg.root_store.add_pem_file(&mut reader)
}

/// Calls `ClientConfig::set_single_client_cert` with copies of the chain and
/// the key. The source fails, changing nothing, where the key is in no
/// encoding it can sign with; else it installs a resolver that always offers
/// the chain as given. The trust store is not touched.
#[verifier::external_body]
pub(crate) fn set_single_client_cert(
    cfg: &mut ClientConfig,
    chain: &Vec<Certificate>,
    key: &PrivateKey,
) -> (r: Result<(), TLSError>)
    ensures
        r is Ok == key_usable(*key),
        client_chain(*final(cfg)) == if r is Ok {
            Some(chain@)
        } else {
            client_chain(*old(cfg))
        },
        trust_anchors(*final(cfg)) == trust_anchors(*old(cfg)),
{
    cfg.set_single_client_cert(chain.clone(), key.clone())
}

/// Calls `RootCertStore::len` on the trust store of `cfg`.
#[verifier::external_body]
pub(crate) fn root_count(cfg: &ClientConfig) -> (n: usize)
    ensures
        n == trust_anchors(*cfg),
{
    cfg.root_store.len()
}

/// Calls `ResolvesClientCert::resolve` on the resolver of `cfg`, without
/// constraints on issuers or signature schemes, and keeps the chain of what
/// it offers.
#[verifier::external_body]
pub(crate) fn offered_chain(cfg: &ClientConfig) -> (r: Option<Vec<Certificate>>)
    ensures
        chain_of(r) == client_chain(*cfg),
{
    cfg.client_auth_cert_resolver.resolve(&[], &[]).map(|key| key.cert)
}

/// A TLS configuration together with the account of how its trust store
/// was filled.
pub struct TlsClient {
    /// The configuration, ready to be handed to a connector.
    pub cfg: ClientConfig,
    /// How many certificates of the authority file are trusted.
    pub added: usize,
    /// How many certificates of the authority file were found unusable and
    /// left out.
    pub rejected: usize,
}

/// The verdict on what an authority file yielded: a file that is not PEM
/// and a file without a usable certificate are both fatal; certificates that
/// were left out beside usable ones are not.
pub open spec fn trust_verdict_of(parsed: Result<(usize, usize), ()>) -> Result<
    (usize, usize),
    ConfigFault,
> {
    match parsed {
        Err(_) => Err(ConfigFault::Malformed),
        Ok((added, rejected)) => if added == 0 {
            Err(ConfigFault::NoCertificate)
        } else {
            Ok((added, rejected))
        },
    }
}

/// Whether building a configuration from the bytes of an authority file, if
/// it could be read, succeeds under `auth`, and with which counts.
pub open spec fn tls_outcome(ca: Option<Seq<u8>>, auth: AuthView) -> Result<
    (usize, usize),
    ConfigFault,
> {
    match ca {
        None => Err(ConfigFault::Unreadable),
        Some(pem) => match trust_verdict_of(pem_certificates(pem)) {
            Err(fault) => Err(fault),
            Ok(counts) => match auth {
                AuthView::Token(_) => Ok(counts),
                AuthView::CertKey(_, key) => if key_usable(key) {
                    Ok(counts)
                } else {
                    Err(ConfigFault::BadClientKey)
                },
            },
        },
    }
}

/// The view of bytes that may be missing.
pub open spec fn bytes_of(bytes: Option<Vec<u8>>) -> Option<Seq<u8>> {
    match bytes {
        Some(b) => Some(b@),
        None => None,
    }
}

/// The certificate chain that a client presents under `auth`: the chain of
/// a certificate identity, and none under a token.
pub open spec fn chain_under(auth: AuthView) -> Option<Seq<Certificate>> {
    match auth {
        AuthView::Token(_) => None,
        AuthView::CertKey(chain, _) => Some(chain),
    }
}

/// Whether `result` is what building from `ca` under `auth` must give: a
/// configuration that trusts what the file yielded and presents what the
/// identity calls for, or the error that says which of them failed.
pub open spec fn built(ca: Option<Seq<u8>>, auth: AuthView, result: Result<TlsClient, KubeError>) -> bool {
    match result {
        Ok(tls) => {
            &&& tls_outcome(ca, auth) == Ok::<(usize, usize), ConfigFault>((tls.added, tls.rejected))
            &&& tls.wf()
            &&& client_chain(tls.cfg) == chain_under(auth)
        },
        Err(error) => {
            &&& tls_outcome(ca, auth) is Err
            &&& error@ == KubeErrorView::ConfigError(tls_outcome(ca, auth)->Err_0)
        },
    }
}

/// The verdict on the counts that reading an authority file gave.
pub fn trust_verdict(parsed: Result<(usize, usize), ()>) -> (verdict: Result<
    (usize, usize),
    ConfigFault,
>)
    ensures
        verdict == trust_verdict_of(parsed),
{
    match parsed {
        Err(_) => Err(ConfigFault::Malformed),
        Ok((added, rejected)) => if added == 0 {
            Err(ConfigFault::NoCertificate)
        } else {
            Ok((added, rejected))
        },
    }
}

impl TlsClient {
    /// A configuration trusts at least one authority, and its trust store
    /// holds exactly the certificates counted as added.
    pub open spec fn wf(&self) -> bool {
        &&& self.added >= 1
        &&& trust_anchors(self.cfg) == self.added
    }

    /// Builds the configuration of a client that trusts the authorities in
    /// `ca`, the bytes of a PEM file or nothing where the file could not be
    /// read, and that presents the certificate of `auth` if it has one.
    pub fn build(ca: Option<Vec<u8>>, auth: &KlusterAuth) -> (result: Result<TlsClient, KubeError>)
        ensures
            built(bytes_of(ca), auth@, result),
    {
        let pem = match ca {
            Some(pem) => pem,
            None => {
                return Err(KubeError::ConfigError(ConfigFault::Unreadable));
            },
        };
        let mut cfg = new_config();
        let parsed = add_pem_file(&mut cfg, pem.as_slice());
        let (added, rejected) = match trust_verdict(parsed) {
            Ok(counts) => counts,
            Err(fault) => {
                return Err(KubeError::ConfigError(fault));
            },
        };
        match auth {
            KlusterAuth::Token(_) => {},
            KlusterAuth::CertKey(chain, key) => {
                match set_single_client_cert(&mut cfg, chain, key) {
                    Ok(_) => {},
                    Err(_) => {
                        return Err(KubeError::ConfigError(ConfigFault::BadClientKey));
                    },
                }
            },
        }
        Ok(TlsClient { cfg, added, rejected })
    }

    /// The number of authorities this configuration trusts, as its trust
    /// store reports it.
    pub fn trusted(&self) -> (n: usize)
        ensures
            n == trust_anchors(self.cfg),
    {
        root_count(&self.cfg)
    }

    /// The certificate chain this configuration presents in the handshake,
    /// if it presents one.
    pub fn identity(&self) -> (chain: Option<Vec<Certificate>>)
        ensures
            chain_of(chain) == client_chain(self.cfg),
    {
        offered_chain(&self.cfg)
    }

    /// Whether this configuration presents a client certificate in the
    /// handshake.
    pub fn has_identity(&self) -> (b: bool)
        ensures
            b == presents_identity(self.cfg),
    {
        offered_chain(&self.cfg).is_some()
    }

    /// The warning owed to the user where some certificates of the authority
    /// file at `cert_path` were left out; none where all were taken.
    pub fn warning(&self, cert_path: &str) -> (text: Option<String>)
        ensures
            text_of(text) == if self.rejected > 0 {
                Some("[WARNING] Couldn't add some certs from "@ + cert_path@)
            } else {
                None
            },
    {
        if self.rejected > 0 {
            let mut text = String::from_str("[WARNING] Couldn't add some certs from ");
            text.append(cert_path);
            Some(text)
        } else {
            None
        }
    }
}

} // verus!
