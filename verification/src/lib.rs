//! Stateless authentication and role-based admission for a small web API.
//!
//! The crate covers the three layers that decide whether a request may run:
//! a token codec that mints and checks signed credentials, an extractor that
//! turns an `Authorization` header into a verified identity, and a role guard
//! that admits or rejects the request for its route scope.

pub mod account;
pub mod errors;
pub mod extract;
pub mod rbac;
pub mod token;

pub use account::{LoginRequest, RegisterRequest, SearchQuery, UserRecord};
pub use errors::AuthError;
pub use extract::AuthenticatedUser;
pub use rbac::{GateDecision, Role, RoleGuard, RoleGuardMiddleware};
pub use token::{AuthResponse, Claims, TokenCodec, TOKEN_LIFETIME_SECS};
