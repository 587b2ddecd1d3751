//! The error taxonomy of the authentication core.

use vstd::prelude::*;

verus! {

/// Every failure the core can report.
///
/// `ConfigurationError` is a fatal boot-time condition (no signing secret);
/// `EncodingError` means signing itself failed while minting a token;
/// `InvalidCredential` is the codec's verdict on a bad, forged or expired
/// token; `Unauthenticated` is the single authentication failure surfaced to
/// transport; `Forbidden` is the role guard's rejection.
#[derive(Clone, Copy, Debug, PartialEq, Eq, Structural)]
pub enum AuthError {
    ConfigurationError,
    EncodingError,
    InvalidCredential,
    Unauthenticated,
    Forbidden,
}

impl AuthError {
    /// The HTTP status class each error maps to at the transport boundary:
    /// authentication failures are 401, authorization failures 403, and the
    /// fatal internal conditions 500.
    pub fn status_code(&self) -> (r: u16)
        ensures
            r == 401 <==> (*self == AuthError::Unauthenticated || *self
                == AuthError::InvalidCredential),
            r == 403 <==> *self == AuthError::Forbidden,
            r == 500 <==> (*self == AuthError::ConfigurationError || *self
                == AuthError::EncodingError),
    {
        match self {
            AuthError::Unauthenticated => 401,
            AuthError::InvalidCredential => 401,
            AuthError::Forbidden => 403,
            AuthError::ConfigurationError => 500,
            AuthError::EncodingError => 500,
        }
    }

    /// The fixed, deliberately generic body each error is reported with:
    /// authentication failures never say which check failed, and the
    /// authorization failure never says which role was required.
    pub fn message(&self) -> (r: String)
        ensures
            (*self == AuthError::Unauthenticated || *self == AuthError::InvalidCredential) ==> r@
                == "Invalid token"@,
            *self == AuthError::Forbidden ==> r@ == "Insufficient permissions"@,
            *self == AuthError::ConfigurationError ==> r@ == "JWT_SECRET must be set"@,
            *self == AuthError::EncodingError ==> r@ == "Failed to create token"@,
    {
        match self {
            AuthError::Unauthenticated => "Invalid token".to_owned(),
            AuthError::InvalidCredential => "Invalid token".to_owned(),
            AuthError::Forbidden => "Insufficient permissions".to_owned(),
            AuthError::ConfigurationError => "JWT_SECRET must be set".to_owned(),
            AuthError::EncodingError => "Failed to create token".to_owned(),
        }
    }
}

} // verus!
