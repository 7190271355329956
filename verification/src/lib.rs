//! A framework for REST API clients: request targets and their resolution
//! against a base URI, the `Link` pagination header, JSON bodies, credentials
//! and the page-by-page walk over a paginated collection.
//!
//! The library does no I/O. It says which request is to be sent and takes
//! the response as a plain value; sending is left to a transport that the
//! caller owns.

pub mod client;
pub mod credentials;
pub mod error;
pub mod gitlab;
pub mod http;
pub mod json;
pub mod link;
pub mod pagination;
pub mod sensu;
pub mod text;
pub mod uri;
pub mod vault;

pub use crate::credentials::{interactive_text, ApiCredentials};
pub use crate::error::{ClientError, ErrorKind};
pub use crate::json::JsonParams;
