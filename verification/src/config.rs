//! What the service is started with, and what follows from it: whether TLS
//! is terminated, and with which files.

use vstd::prelude::*;

verus! {

/// The port that is listened on where none is given.
pub const DEFAULT_PORT: u16 = 9309;

/// A socket address to listen on, as plain numbers.
#[derive(Clone, Copy, Debug, PartialEq, Eq)]
pub enum ListenAddr {
    /// An IPv4 address and a port.
    V4 { octets: [u8; 4], port: u16 },
    /// An IPv6 address and a port, with flow information and scope.
    V6 { segments: [u16; 8], port: u16, flowinfo: u32, scope_id: u32 },
}

/// The configuration of one run of the service.
#[derive(Clone, Debug, PartialEq)]
pub struct Config {
    /// Local address to listen on.
    pub listen: ListenAddr,
    /// Remote address to forward to, as host and port in one string. It is
    /// resolved anew for every connection.
    pub target: String,
    /// Path of the PEM file with the certificate chain.
    pub tls_cert: Option<String>,
    /// Path of the PEM file with the private key.
    pub tls_key: Option<String>,
}

/// How inbound connections are treated.
#[derive(Clone, Debug, PartialEq)]
pub enum Mode {
    /// Streams are forwarded as they come.
    Plain,
    /// TLS is terminated with the material in these two files.
    Tls { cert: String, key: String },
}

/// A configuration that names only one of the two TLS files.
#[derive(Clone, Copy, Debug, PartialEq, Eq, Structural)]
pub enum ConfigError {
    /// A certificate was given without a key.
    CertWithoutKey,
    /// A key was given without a certificate.
    KeyWithoutCert,
}

impl ListenAddr {
    /// Every IPv4 interface, on the default port.
    pub fn any() -> (addr: ListenAddr)
        ensures
            addr matches ListenAddr::V4 { octets, port } && port == DEFAULT_PORT && octets@
                == seq![0u8, 0u8, 0u8, 0u8],
    {
        ListenAddr::V4 { octets: [0u8, 0u8, 0u8, 0u8], port: DEFAULT_PORT }
    }

    /// The port of the address.
    pub fn port(&self) -> (port: u16)
        ensures
            port == match *self {
                ListenAddr::V4 { port, .. } => port,
                ListenAddr::V6 { port, .. } => port,
            },
    {
        match self {
            ListenAddr::V4 { port, .. } => *port,
            ListenAddr::V6 { port, .. } => *port,
        }
    }
}

impl Mode {
    /// Whether inbound connections start with a handshake.
    pub fn is_tls(&self) -> (secure: bool)
        ensures
            secure == (*self is Tls),
    {
        match self {
            Mode::Plain => false,
            Mode::Tls { .. } => true,
        }
    }
}

impl Config {
    /// A configuration for plain forwarding to `target`, listening on every
    /// IPv4 interface on the default port.
    pub fn new(target: String) -> (config: Config)
        ensures
            config.target == target,
            config.tls_cert is None,
            config.tls_key is None,
            config.listen matches ListenAddr::V4 { octets, port } && port == DEFAULT_PORT
                && octets@ == seq![0u8, 0u8, 0u8, 0u8],
    {
        Config { listen: ListenAddr::any(), target, tls_cert: None, tls_key: None }
    }

    /// Decides how inbound connections are treated. The two TLS files are
    /// required as a pair: with both TLS is terminated, with neither streams
    /// are forwarded as they come, and with only one the configuration is
    /// refused.
    pub fn mode(&self) -> (r: Result<Mode, ConfigError>)
        ensures
            match (self.tls_cert, self.tls_key) {
                (None, None) => r == Ok::<Mode, ConfigError>(Mode::Plain),
                (Some(c), Some(k)) => r matches Ok(Mode::Tls { cert, key }) && cert@ == c@ && key@
                    == k@,
                (Some(_), None) => r == Err::<Mode, ConfigError>(ConfigError::CertWithoutKey),
                (None, Some(_)) => r == Err::<Mode, ConfigError>(ConfigError::KeyWithoutCert),
            },
    {
        match (&self.tls_cert, &self.tls_key) {
            (None, None) => Ok(Mode::Plain),
            (Some(cert), Some(key)) => Ok(Mode::Tls { cert: cert.clone(), key: key.clone() }),
            (Some(_), None) => Err(ConfigError::CertWithoutKey),
            (None, Some(_)) => Err(ConfigError::KeyWithoutCert),
        }
    }
}

} // verus!
