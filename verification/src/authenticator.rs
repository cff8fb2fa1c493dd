//! The authenticator: runs on every request before any gate.
//!
//! Credential extraction ([`crate::bearer::extract_bearer_token`]) and the
//! asynchronous call into the credential-resolution service are separated:
//! the transport layer performs the call with the extracted token and hands
//! its answer to [`complete_authentication`], which attaches the identity
//! record or rejects the request.

use vstd::prelude::*;

use crate::bearer::spec_bearer_token;
use crate::context::AuthInfo;
use crate::context::RequestContext;
use crate::error::AuthError;

verus! {

/// The authenticator's decision as a function of the raw header value and
/// of the credential-resolution service's answer for the extracted token.
///
/// `Ok(info)` means the request proceeds with `info` attached to its
/// context; `Err(e)` that it is rejected with kind `e` and nothing attached.
/// The service's answer only matters once a token was actually extracted.
pub open spec fn authenticator_outcome(
    header: Option<Seq<u8>>,
    resolution: Result<AuthInfo, AuthError>,
) -> Result<AuthInfo, AuthError> {
    match header {
        None => Err(AuthError::MissingAuthToken),
        Some(h) => match spec_bearer_token(h) {
            None => Err(AuthError::InvalidAuthToken),
            Some(_) => resolution,
        },
    }
}

/// Applies the credential-resolution service's answer to the request: on
/// success the identity record is attached to the context verbatim and the
/// request proceeds; on failure the request is rejected with the service's
/// kind unchanged and the context is left untouched.
pub fn complete_authentication(
    ctx: &mut RequestContext,
    resolution: Result<AuthInfo, AuthError>,
) -> (r: Result<(), AuthError>)
    requires
        old(ctx).spec_auth_info() is None,
    ensures
        match resolution {
            Ok(info) => r == Ok::<(), AuthError>(()) && final(ctx).spec_auth_info() == Some(info),
            Err(e) => r == Err::<(), AuthError>(e) && *final(ctx) == *old(ctx),
        },
{
    match resolution {
        Ok(info) => {
            ctx.attach(info);
            Ok(())
        },
        Err(e) => Err(e),
    }
}

/// A request with no `Authorization` header is rejected with
/// `MissingAuthToken`, whatever the credential-resolution service would have
/// answered; no identity record is attached for it.
pub proof fn lemma_missing_header_rejected(resolution: Result<AuthInfo, AuthError>)
    ensures
        authenticator_outcome(None, resolution) == Err::<AuthInfo, AuthError>(
            AuthError::MissingAuthToken,
        ),
{
}

/// A header value that is not a well-formed bearer credential is rejected
/// with `InvalidAuthToken`, whatever the service would have answered.
pub proof fn lemma_malformed_header_rejected(
    h: Seq<u8>,
    resolution: Result<AuthInfo, AuthError>,
)
    requires
        spec_bearer_token(h) is None,
    ensures
        authenticator_outcome(Some(h), resolution) == Err::<AuthInfo, AuthError>(
            AuthError::InvalidAuthToken,
        ),
{
}

/// A rejection by the credential-resolution service passes through
/// unchanged: the authenticator reports exactly the kind the service
/// reported, never a reinterpretation.
pub proof fn lemma_service_error_passthrough(h: Seq<u8>, e: AuthError)
    requires
        spec_bearer_token(h) is Some,
    ensures
        authenticator_outcome(Some(h), Err(e)) == Err::<AuthInfo, AuthError>(e),
{
}

/// An identity record the service accepts is what the request proceeds
/// with, verbatim: identity and permission set preserved.
pub proof fn lemma_accepted_identity_verbatim(h: Seq<u8>, info: AuthInfo)
    requires
        spec_bearer_token(h) is Some,
    ensures
        authenticator_outcome(Some(h), Ok(info)) == Ok::<AuthInfo, AuthError>(info),
{
}

/// Idempotence of authentication: two runs over the same header value with
/// the same service answer — as an idempotent service gives for the same
/// valid token — decide identically, down to the attached identity record.
pub proof fn lemma_authenticator_deterministic(
    h1: Option<Seq<u8>>,
    h2: Option<Seq<u8>>,
    r1: Result<AuthInfo, AuthError>,
    r2: Result<AuthInfo, AuthError>,
)
    requires
        h1 == h2,
        r1 == r2,
    ensures
        authenticator_outcome(h1, r1) == authenticator_outcome(h2, r2),
{
}

} // verus!
