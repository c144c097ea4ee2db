//! TLS termination at the inbound edge: whether it is available, and how the
//! certificate chain and private key of the server are loaded from PEM text.
//!
//! Reading the two files is the caller's business. Everything after that is
//! here: which sections of the text count, which failure is reported when
//! several apply, and which key is used when the text holds more than one.

use vstd::prelude::*;

verus! {

/// The server configuration of `rustls`, carried through unread.
#[verifier::external_type_specification]
#[verifier::external_body]
pub struct ExServerConfig(rustls::ServerConfig);

/// The error type of `rustls`, carried through unread.
#[verifier::external_type_specification]
#[verifier::external_body]
pub struct ExRustlsError(rustls::Error);

/// The acceptor of `tokio_rustls`, carried through unread.
#[verifier::external_type_specification]
#[verifier::external_body]
pub struct ExTlsAcceptor(tokio_rustls::TlsAcceptor);

/// What `rustls_pemfile::certs` yields for a PEM text when it is collected up
/// to the first error: the DER bytes of every `CERTIFICATE` section in order,
/// or `None` where a section of the text is malformed.
pub uninterp spec fn pem_certificates(pem: Seq<u8>) -> Option<Seq<Seq<u8>>>;

/// What `rustls_pemfile::pkcs8_private_keys` yields for a PEM text when it is
/// collected up to the first error: the DER bytes of every `PRIVATE KEY`
/// section in order, or `None` where a section of the text is malformed.
pub uninterp spec fn pem_pkcs8_keys(pem: Seq<u8>) -> Option<Seq<Seq<u8>>>;

/// Why certificate and key material could not be turned into an acceptor.
#[derive(Debug, PartialEq)]
pub enum TlsLoadError {
    /// The certificate text is not well-formed PEM.
    InvalidCert,
    /// The key text is not well-formed PEM.
    InvalidKey,
    /// The key text is well-formed but holds no PKCS#8 private key.
    NoKeyFound,
    /// `rustls` refused the chain and key, for the reason it gives.
    Rejected(rustls::Error),
}

/// Whether this build can terminate TLS. Support is always compiled in.
pub fn is_enabled() -> (enabled: bool)
    ensures
        enabled,
{
    true
}

/// Renders the reason that `rustls` gave, through its `Display`. Trusted, and
/// nothing is claimed of the text.
#[verifier::external_body]
fn reason_text(reason: &rustls::Error) -> (text: String) {
    format!("{}", reason)
}

impl TlsLoadError {
    /// The failure in words. The three failures of this crate's own making
    /// have fixed texts; a refusal by `rustls` is given in its words.
    pub fn message(&self) -> (text: String)
        ensures
            *self is InvalidCert ==> text@ == "Invalid cert"@,
            *self is InvalidKey ==> text@ == "Invalid key"@,
            *self is NoKeyFound ==> text@ == "No key found"@,
    {
        match self {
            TlsLoadError::InvalidCert => "Invalid cert".to_owned(),
            TlsLoadError::InvalidKey => "Invalid key".to_owned(),
            TlsLoadError::NoKeyFound => "No key found".to_owned(),
            TlsLoadError::Rejected(reason) => reason_text(reason),
        }
    }
}

/// Calls `rustls_pemfile::certs` on an in-memory reader over `pem` and collects
/// what it yields up to the first error. Trusted: the result is the one named
/// by [`pem_certificates`], each certificate given as its DER bytes.
#[verifier::external_body]
fn read_certs(pem: &[u8]) -> (found: Option<Vec<Vec<u8>>>)
    ensures
        found matches Some(chain) ==> pem_certificates(pem@) == Some(chain.deep_view()),
        found is None ==> pem_certificates(pem@) is None,
{
    let mut reader = pem;
    rustls_pemfile::certs(&mut reader)
        .map(|item| item.map(|der| der.as_ref().to_vec()))
        .collect::<Result<Vec<Vec<u8>>, std::io::Error>>()
        .ok()
}

/// Calls `rustls_pemfile::pkcs8_private_keys` on an in-memory reader over `pem`
/// and collects what it yields up to the first error. Trusted: the result is
/// the one named by [`pem_pkcs8_keys`], each key given as its DER bytes.
#[verifier::external_body]
fn read_keys(pem: &[u8]) -> (found: Option<Vec<Vec<u8>>>)
    ensures
        found matches Some(keys) ==> pem_pkcs8_keys(pem@) == Some(keys.deep_view()),
        found is None ==> pem_pkcs8_keys(pem@) is None,
{
    let mut reader = pem;
    rustls_pemfile::pkcs8_private_keys(&mut reader)
        .map(|item| item.map(|der| der.secret_pkcs8_der().to_vec()))
        .collect::<Result<Vec<Vec<u8>>, std::io::Error>>()
        .ok()
}

/// Builds a `rustls::ServerConfig` without client authentication for one
/// certificate chain and one PKCS#8 key, with the `ring` provider and the
/// default protocol versions. Trusted, and nothing is claimed of the outcome:
/// whether `rustls` accepts the pair depends on the key's encoding, on its
/// match with the first certificate, and on the system's random source.
#[verifier::external_body]
fn server_config(chain: Vec<Vec<u8>>, key: Vec<u8>) -> (built: Result<
    rustls::ServerConfig,
    rustls::Error,
>) {
    let chain = chain.into_iter().map(rustls::pki_types::CertificateDer::from).collect();
    let key = rustls::pki_types::PrivateKeyDer::Pkcs8(key.into());
    let provider = std::sync::Arc::new(rustls::crypto::ring::default_provider());
    rustls::ServerConfig::builder_with_provider(provider)
        .with_safe_default_protocol_versions()?
        .with_no_client_auth()
        .with_single_cert(chain, key)
}

/// Wraps a server configuration into a `tokio_rustls::TlsAcceptor`, through its
/// `From<Arc<ServerConfig>>`. Trusted; the conversion cannot fail.
#[verifier::external_body]
fn acceptor_of(config: rustls::ServerConfig) -> (acceptor: tokio_rustls::TlsAcceptor) {
    tokio_rustls::TlsAcceptor::from(std::sync::Arc::new(config))
}

/// The chain to serve, given what the PEM reader found in the certificate
/// text.
pub open spec fn chain_of(found: Option<Seq<Seq<u8>>>) -> Result<Seq<Seq<u8>>, TlsLoadError> {
    match found {
        Some(chain) => Ok(chain),
        None => Err(TlsLoadError::InvalidCert),
    }
}

/// The key to serve, given what the PEM reader found in the key text: the
/// first one.
pub open spec fn key_of(found: Option<Seq<Seq<u8>>>) -> Result<Seq<u8>, TlsLoadError> {
    match found {
        None => Err(TlsLoadError::InvalidKey),
        Some(keys) => if keys.len() == 0 {
            Err(TlsLoadError::NoKeyFound)
        } else {
            Ok(keys[0])
        },
    }
}

/// Decides on the certificate chain from the reader's result: a malformed
/// text is `InvalidCert`, anything else is served as it was found, an empty
/// chain included.
pub fn chain_from(found: Option<Vec<Vec<u8>>>) -> (r: Result<Vec<Vec<u8>>, TlsLoadError>)
    ensures
        match chain_of(found.deep_view()) {
            Ok(chain) => r matches Ok(c) && c.deep_view() == chain,
            Err(e) => r == Err::<Vec<Vec<u8>>, TlsLoadError>(e),
        },
{
    match found {
        Some(chain) => Ok(chain),
        None => Err(TlsLoadError::InvalidCert),
    }
}

/// Decides on the private key from the reader's result: a malformed text is
/// `InvalidKey`, a text without a key is `NoKeyFound`, and of several keys the
/// first is taken.
pub fn key_from(found: Option<Vec<Vec<u8>>>) -> (r: Result<Vec<u8>, TlsLoadError>)
    ensures
        match key_of(found.deep_view()) {
            Ok(key) => r matches Ok(k) && k@ == key,
            Err(e) => r == Err::<Vec<u8>, TlsLoadError>(e),
        },
{
    match found {
        None => Err(TlsLoadError::InvalidKey),
        Some(keys) => {
            let mut keys = keys;
            if keys.len() == 0 {
                Err(TlsLoadError::NoKeyFound)
            } else {
                Ok(keys.swap_remove(0))
            }
        },
    }
}

/// Reads the certificate chain out of PEM text.
pub fn certificates(pem: &[u8]) -> (r: Result<Vec<Vec<u8>>, TlsLoadError>)
    ensures
        match chain_of(pem_certificates(pem@)) {
            Ok(chain) => r matches Ok(c) && c.deep_view() == chain,
            Err(e) => r == Err::<Vec<Vec<u8>>, TlsLoadError>(e),
        },
{
    chain_from(read_certs(pem))
}

/// Reads the private key out of PEM text.
pub fn private_key(pem: &[u8]) -> (r: Result<Vec<u8>, TlsLoadError>)
    ensures
        match key_of(pem_pkcs8_keys(pem@)) {
            Ok(key) => r matches Ok(k) && k@ == key,
            Err(e) => r == Err::<Vec<u8>, TlsLoadError>(e),
        },
{
    key_from(read_keys(pem))
}

/// Turns what `rustls` made of a chain and key into the result of loading:
/// its configuration becomes an acceptor, its refusal is reported with the
/// reason untouched.
pub fn accept_built(built: Result<rustls::ServerConfig, rustls::Error>) -> (r: Result<
    tokio_rustls::TlsAcceptor,
    TlsLoadError,
>)
    ensures
        built is Ok ==> r is Ok,
        built matches Err(reason) ==> r == Err::<tokio_rustls::TlsAcceptor, TlsLoadError>(
            TlsLoadError::Rejected(reason),
        ),
{
    match built {
        Ok(config) => Ok(acceptor_of(config)),
        Err(reason) => Err(TlsLoadError::Rejected(reason)),
    }
}

/// Builds the acceptor for one chain and key. `rustls` decides whether the
/// pair is usable; the only failure is its refusal.
pub fn acceptor(chain: Vec<Vec<u8>>, key: Vec<u8>) -> (r: Result<
    tokio_rustls::TlsAcceptor,
    TlsLoadError,
>)
    ensures
        r is Ok || r matches Err(TlsLoadError::Rejected(_)),
{
    accept_built(server_config(chain, key))
}

/// Loads a ready-to-use acceptor from the contents of a certificate file and
/// of a key file.
///
/// The certificate text is judged first, then the key text; only when both
/// yield material is `rustls` asked, and then the result is its verdict.
pub fn load_tls_config(cert_pem: &[u8], key_pem: &[u8]) -> (r: Result<
    tokio_rustls::TlsAcceptor,
    TlsLoadError,
>)
    ensures
        match (chain_of(pem_certificates(cert_pem@)), key_of(pem_pkcs8_keys(key_pem@))) {
            (Err(e), _) => r == Err::<tokio_rustls::TlsAcceptor, TlsLoadError>(e),
            (Ok(_), Err(e)) => r == Err::<tokio_rustls::TlsAcceptor, TlsLoadError>(e),
            (Ok(_), Ok(_)) => r is Ok || r matches Err(TlsLoadError::Rejected(_)),
        },
{
    match certificates(cert_pem) {
        Err(e) => Err(e),
        Ok(chain) => match private_key(key_pem) {
            Err(e) => Err(e),
            Ok(key) => acceptor(chain, key),
        },
    }
}

} // verus!
