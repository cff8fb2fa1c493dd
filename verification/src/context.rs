//! The identity record and the per-request context it is attached to.

use vstd::prelude::*;

verus! {

/// The resolved identity record: who the caller is acting as and which
/// permissions the credential-resolution service granted it.
///
/// The record is produced once per request by the service, attached to the
/// request's context by the authenticator, and read — never changed — by
/// every later stage.
#[derive(Clone, Debug, PartialEq, Eq)]
pub struct AuthInfo {
    /// Reference to the authenticated principal.
    pub identity: String,
    /// The permissions this identity holds.  Semantically a set: order is
    /// irrelevant and duplicates carry no meaning.  Each entry is the
    /// canonical name of one permission.
    pub permissions: Vec<String>,
}

impl AuthInfo {
    /// True when this identity holds the permission named `name`.
    pub open spec fn spec_holds(&self, name: Seq<char>) -> bool {
        exists|i: int| 0 <= i < self.permissions@.len() && self.permissions@[i]@ == name
    }

    /// Membership test against the held permission set.
    pub fn holds(&self, name: &String) -> (r: bool)
        ensures
            r == self.spec_holds(name@),
    {
        let mut i: usize = 0;
        while i < self.permissions.len()
            invariant
                i <= self.permissions@.len(),
                forall|j: int| 0 <= j < i ==> self.permissions@[j]@ != name@,
            decreases self.permissions@.len() - i,
        {
            if self.permissions[i] == *name {
                return true;
            }
            i += 1;
        }
        false
    }
}

/// The per-request context: a typed, request-scoped slot for the identity
/// record, written at most once per request by the authenticator and read
/// by any number of downstream stages.
#[derive(Clone, Debug)]
pub struct RequestContext {
    auth_info: Option<AuthInfo>,
}

impl RequestContext {
    /// The contents of the identity slot.
    pub closed spec fn spec_auth_info(&self) -> Option<AuthInfo> {
        self.auth_info
    }

    /// A fresh context for a request no stage has processed yet.
    pub fn new() -> (ctx: Self)
        ensures
            ctx.spec_auth_info() is None,
    {
        RequestContext { auth_info: None }
    }

    /// Read access to the identity slot for downstream stages.
    pub fn auth_info(&self) -> (r: &Option<AuthInfo>)
        ensures
            *r == self.spec_auth_info(),
    {
        &self.auth_info
    }

    /// Write-once attachment of the identity record, performed only by the
    /// authenticator and only on a slot that is still empty.
    pub fn attach(&mut self, info: AuthInfo)
        requires
            old(self).spec_auth_info() is None,
        ensures
            final(self).spec_auth_info() == Some(info),
    {
        self.auth_info = Some(info);
    }
}

} // verus!
