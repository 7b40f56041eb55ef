//! Application Default Credentials: locating the credential document and
//! turning it into a typed descriptor.

pub mod descriptor;
pub mod error;
pub mod json;
pub mod locate;
pub mod signing;

pub use error::Error;
pub use json::JsonValue;
pub use descriptor::{
    CredentialSource, CredentialsFile, ExecutableConfig, Format, ServiceAccountImpersonationInfo,
    SourceKind,
};
pub use locate::{DocumentLocation, LocationView, CREDENTIALS_FILE};
pub use signing::MAX_DER_DEPTH;
