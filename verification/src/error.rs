//! The failure taxonomy of the authorization layer.

use vstd::prelude::*;

verus! {

/// The failure taxonomy of the authorization layer.
///
/// Every rejected request carries exactly one of these kinds; a failure is
/// terminal for the request and is never reinterpreted by a later stage.
#[derive(Clone, Debug, PartialEq, Eq)]
pub enum AuthError {
    /// No `Authorization` header was present on the request.
    MissingAuthToken,
    /// An `Authorization` header was present but was not a well-formed
    /// `Bearer <token>` credential.
    InvalidAuthToken,
    /// The credential-resolution service rejected the token; the kind it
    /// reported is carried through unchanged.
    ServiceRejected(String),
    /// The identity is authenticated but lacks the named required permission.
    MissingRequiredPermission(String),
    /// A permission gate ran without an authenticator attaching identity
    /// information first: a wiring defect, surfaced distinctly so it is not
    /// mistaken for an ordinary permission denial.
    MissingAuthInfo,
}

} // verus!
