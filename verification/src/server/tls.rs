//! Provisioning of TLS material: a fresh self-signed certificate for
//! `localhost`, parsed into a server configuration.
//!
//! The certificate and its key are generated by an outside crate and differ
//! on every call, so nothing is claimed of their contents. What is decided
//! here is the order of the steps, which of the parsed sections are used,
//! and that every failure is reported as [`CoreError::Unknown`].

use std::sync::Arc;
use vstd::prelude::*;
use rustls::pki_types::{CertificateDer, PrivateKeyDer, PrivatePkcs8KeyDer};
use rustls::ServerConfig as RustlsServerConfig;
use tokio_rustls::TlsAcceptor;
use crate::error::{CoreError, CoreErrorView};

verus! {

/// A TLS server configuration, carried through as it came.
#[verifier::external_type_specification]
#[verifier::external_body]
pub struct ExRustlsServerConfig(RustlsServerConfig);

/// What terminates TLS on accepted connections, carried through as it came.
#[verifier::external_type_specification]
#[verifier::external_body]
pub struct ExTlsAcceptor(TlsAcceptor);

/// A certificate and its private key, both PEM-encoded.
pub struct PemPair {
    /// The certificate.
    pub cert_pem: String,
    /// The private key, in PKCS#8.
    pub key_pem: String,
}

/// The certificate sections of a PEM text, each as the bytes it encodes, in
/// the order they stand in the text; nothing where the text is malformed.
/// This is what `rustls_pemfile::certs` yields.
pub uninterp spec fn pem_certificates(pem: Seq<char>) -> Option<Seq<Seq<u8>>>;

/// The PKCS#8 private key sections of a PEM text, each as the bytes it
/// encodes, in the order they stand in the text; nothing where the text is
/// malformed. This is what `rustls_pemfile::pkcs8_private_keys` yields.
pub uninterp spec fn pem_pkcs8_keys(pem: Seq<char>) -> Option<Seq<Seq<u8>>>;

/// The byte strings of an optional list, as plain values.
pub open spec fn sections_of(list: Option<Vec<Vec<u8>>>) -> Option<Seq<Seq<u8>>> {
    match list {
        Some(items) => Some(Seq::new(items@.len(), |i: int| items@[i]@)),
        None => None,
    }
}

/// The name that every certificate is issued for.
pub open spec fn subject_name() -> Seq<char> {
    "localhost"@
}

/// The name that every certificate is issued for: `localhost`.
pub fn certificate_subject() -> (name: &'static str)
    ensures
        name@ == subject_name(),
{
    "localhost"
}

/// Calls `rcgen::generate_simple_self_signed` for the one name given and
/// encodes the certificate and the signing key as PEM. The key is drawn at
/// random, so nothing is claimed of the result; `None` stands for any error
/// of the generator. The library asks for one name only, and the call is
/// held to it.
#[verifier::external_body]
fn generate_self_signed_cert(name: &str) -> (pair: Option<PemPair>)
    requires
        name@ == subject_name(),
{
    match rcgen::generate_simple_self_signed(vec![name.to_string()]) {
        Ok(certified) => Some(
            PemPair {
                cert_pem: certified.cert.pem(),
                key_pem: certified.signing_key.serialize_pem(),
            },
        ),
        Err(_) => None,
    }
}

/// Calls `rustls_pemfile::certs` on the bytes of `pem` and collects the
/// certificates it yields, each as its bytes. `None` stands for any error it
/// yields. The result depends on the text alone.
#[verifier::external_body]
fn parse_certificates(pem: &str) -> (certs: Option<Vec<Vec<u8>>>)
    ensures
        sections_of(certs) == pem_certificates(pem@),
{
    rustls_pemfile::certs(&mut pem.as_bytes()).map(|cert| cert.map(|c| c.as_ref().to_vec())).collect::<
        Result<Vec<_>, _>,
    >().ok()
}

/// Calls `rustls_pemfile::pkcs8_private_keys` on the bytes of `pem` and
/// collects the keys it yields, each as its bytes. `None` stands for any
/// error it yields. The result depends on the text alone.
#[verifier::external_body]
fn parse_private_keys(pem: &str) -> (keys: Option<Vec<Vec<u8>>>)
    ensures
        sections_of(keys) == pem_pkcs8_keys(pem@),
{
    rustls_pemfile::pkcs8_private_keys(&mut pem.as_bytes()).map(
        |key| key.map(|k| k.secret_pkcs8_der().to_vec()),
    ).collect::<Result<Vec<_>, _>>().ok()
}

/// Builds a TLS server configuration of `rustls` without client
/// authentication from one certificate chain and its PKCS#8 key, through
/// `with_single_cert`. `None` stands for its error: a key that is invalid or
/// does not match the certificate. Nothing is claimed of the configuration.
/// The builder takes the one cryptography provider that is compiled in; it
/// panics only where none or several are, which no argument decides.
#[verifier::external_body]
fn build_server_config(certs: Vec<Vec<u8>>, key: Vec<u8>) -> (config: Option<RustlsServerConfig>) {
    let chain: Vec<CertificateDer<'static>> = certs.into_iter().map(CertificateDer::from).collect();
    let key = PrivateKeyDer::Pkcs8(PrivatePkcs8KeyDer::from(key));
    RustlsServerConfig::builder().with_no_client_auth().with_single_cert(chain, key).ok()
}

/// Wraps a configuration in a `tokio_rustls::TlsAcceptor`.
#[verifier::external_body]
fn acceptor_from(config: RustlsServerConfig) -> (acceptor: TlsAcceptor) {
    TlsAcceptor::from(Arc::new(config))
}

/// A certificate chain and the key that belongs to it, each as the bytes of
/// its encoding.
pub struct TlsMaterial {
    /// The certificates, in the order they were parsed.
    pub certs: Vec<Vec<u8>>,
    /// The private key, in PKCS#8.
    pub key: Vec<u8>,
}

/// The chain and the key that a server is configured with, given what was
/// parsed: all the certificates and the first of the keys. There is none
/// where either did not parse or no key was found.
pub open spec fn material_of(certs: Option<Seq<Seq<u8>>>, keys: Option<Seq<Seq<u8>>>) -> Option<
    (Seq<Seq<u8>>, Seq<u8>),
> {
    if certs is Some && keys is Some && keys->0.len() > 0 {
        Some((certs->0, keys->0[0]))
    } else {
        None
    }
}

/// The key a server is configured with: the first of those parsed. Where
/// none was parsed the provisioning fails.
pub fn first_key(keys: Vec<Vec<u8>>) -> (r: Result<Vec<u8>, CoreError>)
    ensures
        match r {
            Ok(key) => keys@.len() > 0 && key@ == keys@[0]@,
            Err(e) => keys@.len() == 0 && e@ == CoreErrorView::Unknown,
        },
{
    let mut keys = keys;
    if keys.len() > 0 {
        Ok(keys.remove(0))
    } else {
        Err(CoreError::Unknown)
    }
}

/// What a server is configured with, given what was parsed; see
/// [`material_of`]. Where there is none the error is
/// [`CoreError::Unknown`].
pub fn select_material(certs: Option<Vec<Vec<u8>>>, keys: Option<Vec<Vec<u8>>>) -> (r: Result<
    TlsMaterial,
    CoreError,
>)
    ensures
        match r {
            Ok(material) => material_of(sections_of(certs), sections_of(keys)) == Some(
                (sections_of(Some(material.certs))->0, material.key@),
            ),
            Err(e) => material_of(sections_of(certs), sections_of(keys)) is None && e@
                == CoreErrorView::Unknown,
        },
{
    let certs = match certs {
        Some(certs) => certs,
        None => {
            return Err(CoreError::Unknown);
        },
    };
    let keys = match keys {
        Some(keys) => keys,
        None => {
            return Err(CoreError::Unknown);
        },
    };
    match first_key(keys) {
        Ok(key) => Ok(TlsMaterial { certs, key }),
        Err(e) => Err(e),
    }
}

/// Turns a PEM-encoded certificate and key into what terminates TLS.
///
/// Fails where either text does not parse or no key is found, and may fail
/// where the configuration is refused: that is for the TLS library to say.
/// The only error is [`CoreError::Unknown`].
pub fn acceptor_from_pem(pair: &PemPair) -> (r: Result<TlsAcceptor, CoreError>)
    ensures
        r is Err ==> r->Err_0@ == CoreErrorView::Unknown,
        material_of(pem_certificates(pair.cert_pem@), pem_pkcs8_keys(pair.key_pem@)) is None
            ==> r is Err,
{
    let certs = parse_certificates(pair.cert_pem.as_str());
    let keys = parse_private_keys(pair.key_pem.as_str());
    let material = match select_material(certs, keys) {
        Ok(material) => material,
        Err(e) => {
            return Err(e);
        },
    };
    match build_server_config(material.certs, material.key) {
        Some(config) => Ok(acceptor_from(config)),
        None => Err(CoreError::Unknown),
    }
}

/// Provisions TLS: generates a self-signed certificate for
/// [`certificate_subject`] and builds from it what terminates TLS, as
/// [`acceptor_from_pem`] does. The only error is [`CoreError::Unknown`].
pub fn provision_tls() -> (r: Result<TlsAcceptor, CoreError>)
    ensures
        r is Err ==> r->Err_0@ == CoreErrorView::Unknown,
{
    match generate_self_signed_cert(certificate_subject()) {
        Some(pair) => acceptor_from_pem(&pair),
        None => Err(CoreError::Unknown),
    }
}

} // verus!
