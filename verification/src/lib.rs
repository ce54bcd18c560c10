//! Verified core of a URL-shortening service.
//!
//! The crate validates submitted URLs, draws random identifiers for them,
//! persists the identifier-to-URL mapping through a storage gateway over
//! SQLite, and resolves identifiers back to their URLs.  The HTTP transport
//! around these operations is an external collaborator and lives outside the
//! library.

pub mod handler;
pub mod ident;
pub mod store;
pub mod validator;
