use vstd::prelude::*;

verus! {

/// The ways in which resolving, parsing or using a credential document fails.
/// Reading the file itself happens outside the library, which reports its own
/// I/O failure.
#[derive(PartialEq, Eq, Structural, Clone, Copy, Debug)]
pub enum Error {
    /// A variable that the fallback path needs (the app-data directory) is unset.
    EnvironmentAccessFailure,
    /// The home directory, needed for the default path, cannot be determined.
    NoHomeDirectoryFound,
    /// The bytes are not JSON, or do not have the shape of a credential document.
    MalformedDocument,
    /// A signing key was asked for, but the descriptor holds no private key.
    NoPrivateKeyFound,
    /// The private key is present but is not PEM-encoded RSA key material.
    InvalidPrivateKey,
}

} // verus!
