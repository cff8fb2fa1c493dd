//! Request-authorization core.
//!
//! Two stages run in strict sequence on every guarded request: the
//! authenticator extracts a bearer credential from the `Authorization`
//! header, has the credential-resolution service turn it into an identity
//! record, and attaches that record to the request's context; a permission
//! gate then rejects the request unless the record holds every permission
//! its route requires.  Every rejection carries one kind from
//! [`AuthError`], and a gate that finds no record fails closed.

pub mod authenticator;
pub mod bearer;
pub mod context;
pub mod error;
pub mod gate;

pub use authenticator::authenticator_outcome;
pub use authenticator::complete_authentication;
pub use bearer::extract_bearer_token;
pub use context::AuthInfo;
pub use context::RequestContext;
pub use error::AuthError;
pub use gate::PermissionGate;
