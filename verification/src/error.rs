//! Errors that end the program before or during start-up.

use vstd::prelude::*;

verus! {

/// A fault in the configuration itself.
#[derive(Clone, Copy, Debug, PartialEq, Eq, Structural)]
pub enum ConfigError {
    /// A requested QoS integer is not 0, 1 or 2.
    InvalidQos { value: i32 },
    /// A persistent session was requested without a client identifier.
    ClientIdRequired,
}

/// A fault in the certificate or key material of an encrypted connection.
#[derive(Clone, Copy, Debug, PartialEq, Eq, Structural)]
pub enum TlsError {
    /// The configured CA file could not be read.
    UnreadableCaFile,
    /// The CA file is not well-formed PEM.
    MalformedCaPem,
    /// A certificate of the CA file cannot serve as a trust anchor.
    RejectedCaCertificate,
    /// The configured client certificate and key file could not be read.
    UnreadableClientFile,
    /// The client file is not well-formed PEM.
    MalformedClientPem,
    /// The client file holds no PKCS#8 private key.
    MissingPrivateKey,
    /// The TLS library refused the client key.
    RejectedClientKey,
}

/// Why start-up ended before any connection was attempted.
#[derive(Clone, Copy, Debug, PartialEq, Eq, Structural)]
pub enum StartupError {
    Config(ConfigError),
    Tls(TlsError),
}

} // verus!
