//! The permission gate: a per-route factory whose product rejects every
//! request whose identity record lacks one of the route's required
//! permissions.
//!
//! The required list is fixed at route-registration time and checked in
//! declared order with short-circuit: the first missing permission is the
//! one reported.  A gate that finds no identity record on the context fails
//! closed with a distinct wiring-defect kind.

use vstd::prelude::*;

use crate::context::AuthInfo;
use crate::context::RequestContext;
use crate::error::AuthError;

verus! {

/// The outcome of checking a required permission list against an identity
/// record: `Ok` when every entry is held, otherwise the first missing entry
/// in declared order, reported by name.
pub open spec fn spec_check_required(required: Seq<String>, info: AuthInfo) -> Result<
    (),
    AuthError,
>
    decreases required.len(),
{
    if required.len() == 0 {
        Ok(())
    } else if !info.spec_holds(required[0]@) {
        Err(AuthError::MissingRequiredPermission(required[0]))
    } else {
        spec_check_required(required.drop_first(), info)
    }
}

/// A permission gate's decision on a request context: a context without an
/// identity record is a wiring defect and the request is denied; otherwise
/// the required list decides.
pub open spec fn spec_gate_outcome(required: Seq<String>, auth: Option<AuthInfo>) -> Result<
    (),
    AuthError,
> {
    match auth {
        None => Err(AuthError::MissingAuthInfo),
        Some(info) => spec_check_required(required, info),
    }
}

/// A per-route permission gate: the middleware value produced at
/// route-registration time for one fixed, non-empty list of required
/// permissions.  Immutable after construction; one value may be read by any
/// number of concurrent requests.
#[derive(Clone, Debug)]
pub struct PermissionGate {
    required: Vec<String>,
}

impl PermissionGate {
    /// The fixed required permission list, in declared order.
    pub closed spec fn spec_required(&self) -> Seq<String> {
        self.required@
    }

    /// Route-registration-time factory: captures the required list.  Pure
    /// construction; the list must name at least one permission.
    pub fn new(required: Vec<String>) -> (gate: Self)
        requires
            required@.len() > 0,
        ensures
            gate.spec_required() == required@,
    {
        PermissionGate { required }
    }

    /// Read access to the required list.
    pub fn required(&self) -> (r: &Vec<String>)
        ensures
            r@ == self.spec_required(),
    {
        &self.required
    }

    /// The per-request check.  Evaluates the required permissions in
    /// declared order against the identity record on `ctx` and
    /// short-circuits on the first one missing; the caller may invoke the
    /// guarded handler exactly when the result is `Ok`.
    pub fn check(&self, ctx: &RequestContext) -> (r: Result<(), AuthError>)
        ensures
            r == spec_gate_outcome(self.spec_required(), ctx.spec_auth_info()),
    {
        let info = match ctx.auth_info() {
            None => {
                return Err(AuthError::MissingAuthInfo);
            },
            Some(info) => info,
        };
        proof {
            assert(self.required@.skip(0) =~= self.required@);
        }
        let mut i: usize = 0;
        while i < self.required.len()
            invariant
                i <= self.required@.len(),
                ctx.spec_auth_info() == Some(*info),
                spec_check_required(self.required@.skip(i as int), *info) == spec_check_required(
                    self.required@,
                    *info,
                ),
            decreases self.required@.len() - i,
        {
            proof {
                assert(self.required@.skip(i as int)[0] == self.required@[i as int]);
            }
            if !info.holds(&self.required[i]) {
                return Err(AuthError::MissingRequiredPermission(self.required[i].clone()));
            }
            proof {
                assert(self.required@.skip(i as int).drop_first() =~= self.required@.skip(
                    i as int + 1,
                ));
            }
            i += 1;
        }
        proof {
            assert(self.required@.skip(i as int) =~= Seq::<String>::empty());
        }
        Ok(())
    }
}

/// Fail closed: on a context holding no identity record — an authenticator
/// never ran upstream — a permission gate never lets the request proceed,
/// and the error kind is the wiring defect, distinct from a permission
/// denial.
pub proof fn lemma_gate_fail_closed(required: Seq<String>)
    ensures
        spec_gate_outcome(required, None) == Err::<(), AuthError>(AuthError::MissingAuthInfo),
{
}

/// Soundness: a gate lets a request proceed only when an identity record is
/// present and holds every required permission.
pub proof fn lemma_gate_ok_requires_all(required: Seq<String>, info: AuthInfo)
    requires
        spec_check_required(required, info) is Ok,
    ensures
        forall|k: int| 0 <= k < required.len() ==> info.spec_holds(#[trigger] required[k]@),
    decreases required.len(),
{
    if required.len() > 0 {
        lemma_gate_ok_requires_all(required.drop_first(), info);
        assert forall|k: int| 0 <= k < required.len() implies info.spec_holds(
            #[trigger] required[k]@,
        ) by {
            if k > 0 {
                assert(required.drop_first()[k - 1] == required[k]);
            }
        }
    }
}

/// Completeness: an identity record holding every required permission is
/// let through; the request proceeds to its handler unchanged.
pub proof fn lemma_all_held_proceeds(required: Seq<String>, info: AuthInfo)
    requires
        forall|k: int| 0 <= k < required.len() ==> info.spec_holds(#[trigger] required[k]@),
    ensures
        spec_check_required(required, info) == Ok::<(), AuthError>(()),
    decreases required.len(),
{
    if required.len() > 0 {
        assert(info.spec_holds(required[0]@));
        assert forall|k: int| 0 <= k < required.drop_first().len() implies info.spec_holds(
            #[trigger] required.drop_first()[k]@,
        ) by {
            assert(required.drop_first()[k] == required[k + 1]);
        }
        lemma_all_held_proceeds(required.drop_first(), info);
    }
}

/// Ordered short-circuit: when every permission before position `i` is held
/// and the one at `i` is not, the outcome names exactly the permission at
/// `i` — the first missing one in declared order — whatever follows it.
pub proof fn lemma_first_missing_reported(required: Seq<String>, info: AuthInfo, i: int)
    requires
        0 <= i < required.len(),
        forall|k: int| 0 <= k < i ==> info.spec_holds(#[trigger] required[k]@),
        !info.spec_holds(required[i]@),
    ensures
        spec_check_required(required, info) == Err::<(), AuthError>(
            AuthError::MissingRequiredPermission(required[i]),
        ),
    decreases i,
{
    if i == 0 {
    } else {
        assert(info.spec_holds(required[0]@));
        assert forall|k: int| 0 <= k < i - 1 implies info.spec_holds(
            #[trigger] required.drop_first()[k]@,
        ) by {
            assert(required.drop_first()[k] == required[k + 1]);
        }
        assert(required.drop_first()[i - 1] == required[i]);
        lemma_first_missing_reported(required.drop_first(), info, i - 1);
    }
}

} // verus!
