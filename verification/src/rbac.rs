//! The role guard: role-based admission for a scope of routes.
//!
//! A guard is constructed once per protected scope with a fixed required
//! role. Per request it consults only the identity the extractor attached:
//! no identity means rejection, a `User` requirement admits any identity,
//! and an `Admin` requirement admits exactly the identities whose admin flag
//! is set. Authentication itself happened earlier, in the extractor.

use vstd::prelude::*;

use crate::errors::AuthError;
use crate::extract::{header_view, identity_of, AuthenticatedUser};
use crate::token::TokenCodec;

verus! {

/// The two privilege levels: an admission threshold, not a stored attribute.
#[derive(Clone, Copy, Debug, PartialEq, Eq, Structural)]
pub enum Role {
    User,
    Admin,
}

/// The guard's terminal outcome for one request.
#[derive(Clone, Copy, Debug, PartialEq, Eq, Structural)]
pub enum GateDecision {
    Admitted,
    Rejected,
}

/// Whether an identity with the given admin flag meets the required role:
/// `User` is met by everyone, `Admin` only by administrators.
pub open spec fn role_admits(required: Role, is_admin: bool) -> bool {
    required == Role::User || is_admin
}

/// The guard's decision table over the attached identity: absence is treated
/// as insufficient privilege, presence is judged by [`role_admits`].
pub open spec fn gate_admits(required: Role, user: Option<&AuthenticatedUser>) -> bool {
    match user {
        Some(u) => role_admits(required, u.is_admin),
        None => false,
    }
}

/// The admission decision table, whole: without an identity nothing is
/// admitted under either requirement; a `User` requirement admits every
/// identity; an `Admin` requirement admits exactly the administrators.
pub proof fn lemma_rbac_decision_table(user: AuthenticatedUser)
    ensures
        !gate_admits(Role::User, None),
        !gate_admits(Role::Admin, None),
        gate_admits(Role::User, Some(&user)),
        gate_admits(Role::Admin, Some(&user)) <==> user.is_admin,
{
}

/// The factory a protected scope is wrapped with: it fixes the required role
/// and hands out one middleware per wrapped service.
pub struct RoleGuard {
    role: Role,
}

impl RoleGuard {
    /// The required role, for contracts.
    pub closed spec fn spec_role(&self) -> Role {
        self.role
    }

    /// A guard requiring the given role of every request in its scope.
    pub fn new(role: Role) -> (g: Self)
        ensures
            g.spec_role() == role,
    {
        RoleGuard { role }
    }

    /// The per-service middleware, carrying the guard's fixed role.
    pub fn new_transform(&self) -> (m: RoleGuardMiddleware)
        ensures
            m.spec_role() == self.spec_role(),
    {
        RoleGuardMiddleware { role: self.role }
    }
}

/// The middleware that judges each request of the wrapped scope.
pub struct RoleGuardMiddleware {
    role: Role,
}

impl RoleGuardMiddleware {
    /// The required role, for contracts.
    pub closed spec fn spec_role(&self) -> Role {
        self.role
    }

    /// Judge one request by the identity attached to it: exactly the
    /// decision table of [`gate_admits`]. On `Rejected` the wrapped handler
    /// must never run; on `Admitted` the request passes through unchanged.
    pub fn call(&self, user: Option<&AuthenticatedUser>) -> (d: GateDecision)
        ensures
            d == GateDecision::Admitted <==> gate_admits(self.spec_role(), user),
    {
        match (user, self.role) {
            (Some(u), Role::Admin) => if u.is_admin {
                GateDecision::Admitted
            } else {
                GateDecision::Rejected
            },
            (Some(_), Role::User) => GateDecision::Admitted,
            (None, _) => GateDecision::Rejected,
        }
    }

    /// The whole admission pipeline for one request as of the moment `now`:
    /// the extractor runs strictly first, and on its failure the guard and
    /// the handler never run (`Unauthenticated`); an extracted identity of
    /// insufficient role is turned away with `Forbidden`; otherwise the
    /// identity is admitted for the handler to use.
    pub fn screen(&self, codec: &TokenCodec, header: Option<&str>, now: i64) -> (r: Result<
        AuthenticatedUser,
        AuthError,
    >)
        ensures
            identity_of(header_view(header), codec.spec_secret(), now as int) is None ==> r
                == Err::<AuthenticatedUser, AuthError>(AuthError::Unauthenticated),
            identity_of(header_view(header), codec.spec_secret(), now as int) matches Some(q)
                ==> if role_admits(self.spec_role(), q.2) {
                r matches Ok(u) && q == (u.user_id as int, u.username@, u.is_admin)
            } else {
                r == Err::<AuthenticatedUser, AuthError>(AuthError::Forbidden)
            },
    {
        match AuthenticatedUser::from_request_at(codec, header, now) {
            Err(_) => Err(AuthError::Unauthenticated),
            Ok(user) => {
                match self.call(Some(&user)) {
                    GateDecision::Admitted => Ok(user),
                    GateDecision::Rejected => Err(AuthError::Forbidden),
                }
            },
        }
    }
}

} // verus!
