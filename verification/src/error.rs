//! The failures a cluster client reports.

use vstd::prelude::*;

verus! {

/// Why a TLS configuration could not be built.
#[derive(Debug, Clone, Copy, PartialEq, Eq, Structural)]
pub enum ConfigFault {
    /// The certificate authority file could not be read.
    Unreadable,
    /// The certificate authority file is not well-formed PEM.
    Malformed,
    /// The certificate authority file yielded no usable certificate.
    NoCertificate,
    /// The private key of the client identity is in no supported encoding.
    BadClientKey,
}

/// Everything that can go wrong between a caller and a cluster.
#[derive(Debug, Clone, PartialEq, Eq)]
pub enum KubeError {
    /// A base address or a joined path that is no URL; holds the offending text.
    UrlError(String),
    /// No TLS configuration could be built.
    ConfigError(ConfigFault),
    /// The exchange itself failed: connecting, the handshake, a timeout, a
    /// broken stream. Holds the transport's own account of it.
    TransportError(String),
    /// The server answered 401.
    Unauthorized,
    /// The server answered with a status that is neither 200 nor 401.
    OtherFailure(u16),
    /// The body of a successful reply did not decode; holds the decoder's
    /// account of it.
    DeserializeError(String),
}

/// The mathematical value of a [`KubeError`].
pub enum KubeErrorView {
    UrlError(Seq<char>),
    ConfigError(ConfigFault),
    TransportError(Seq<char>),
    Unauthorized,
    OtherFailure(u16),
    DeserializeError(Seq<char>),
}

impl View for KubeError {
    type V = KubeErrorView;

    open spec fn view(&self) -> KubeErrorView {
        match self {
            KubeError::UrlError(text) => KubeErrorView::UrlError(text@),
            KubeError::ConfigError(fault) => KubeErrorView::ConfigError(*fault),
            KubeError::TransportError(message) => KubeErrorView::TransportError(message@),
            KubeError::Unauthorized => KubeErrorView::Unauthorized,
            KubeError::OtherFailure(status) => KubeErrorView::OtherFailure(*status),
            KubeError::DeserializeError(message) => KubeErrorView::DeserializeError(message@),
        }
    }
}

} // verus!
