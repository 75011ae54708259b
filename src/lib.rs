//! Verified core of a client for an analysis platform's HTTP API: the error
//! taxonomy, credentials and login payloads, content-hash identifiers, the
//! session token, the request retry machine with its response classifier,
//! the payload converters, and the alert data model.

pub mod alert;
pub mod auth;
pub mod convert;
pub mod error;
pub mod request;
pub mod retry;
pub mod session;
pub mod sha256;
mod transport;

pub use auth::Authentication;
pub use convert::JsonMap;
pub use error::Error;
pub use sha256::Sha256;
