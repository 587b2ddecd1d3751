//! The login and registration decisions: everything the route handlers do
//! besides storage I/O.
//!
//! The account store is an external collaborator: the caller looks a user up
//! by username (or inserts one) and hands the resulting record here. Password
//! hashing and checking are done by the `bcrypt` crate behind two trusted
//! wrappers; whether a password matches a hash is named by the uninterpreted
//! function [`bcrypt_matches`], a function of the two strings alone.

use vstd::prelude::*;

use crate::errors::AuthError;
use crate::token::{claims_of, AuthResponse, TokenCodec, TOKEN_LIFETIME_SECS};

verus! {

/// The body of a login request.
#[derive(Debug, Clone)]
pub struct LoginRequest {
    pub username: String,
    pub password: String,
}

/// The body of a registration request.
#[derive(Debug, Clone)]
pub struct RegisterRequest {
    pub username: String,
    pub email: String,
    pub password: String,
}

/// The body of a search request: the query string.
#[derive(Debug, Clone)]
pub struct SearchQuery {
    pub q: String,
}

/// What the core reads of a stored account: id, username, password hash and
/// the admin flag. The store may hold more; none of it is consulted here.
#[derive(Debug, Clone)]
pub struct UserRecord {
    pub id: i32,
    pub username: String,
    pub password_hash: String,
    pub is_admin: bool,
}

/// Whether `bcrypt` accepts the password against the hash. This names the
/// outcome of `bcrypt::verify`, a function of the two strings alone.
pub uninterp spec fn bcrypt_matches(password: Seq<char>, hash: Seq<char>) -> bool;

/// Relies on `bcrypt::verify`: whether the password matches the hash depends
/// on the two strings alone; a malformed hash matches nothing.
#[verifier::external_body]
fn bcrypt_verify(password: &str, hash: &str) -> (r: bool)
    ensures
        r == bcrypt_matches(password@, hash@),
{
    bcrypt::verify(password, hash).unwrap_or(false)
}

/// Relies on `bcrypt::hash` at the crate's default cost: on success it
/// returns a salted hash that `bcrypt::verify` accepts the same password
/// against. The salt is drawn fresh, so nothing more is stated of the hash.
#[verifier::external_body]
fn bcrypt_hash(password: &str) -> (r: Result<String, AuthError>)
    ensures
        r matches Ok(h) ==> bcrypt_matches(password@, h@),
        r matches Err(e) ==> e == AuthError::EncodingError,
{
    match bcrypt::hash(password, bcrypt::DEFAULT_COST) {
        Ok(h) => Ok(h),
        Err(_) => Err(AuthError::EncodingError),
    }
}

impl RegisterRequest {
    /// The password digest to store for this registration; a failure of the
    /// hashing primitive itself is reported as `EncodingError`.
    pub fn hashed_password(&self) -> (r: Result<String, AuthError>)
        ensures
            r matches Ok(h) ==> bcrypt_matches(self.password@, h@),
            r matches Err(e) ==> e == AuthError::EncodingError,
    {
        bcrypt_hash(self.password.as_str())
    }
}

/// Mint the response body for a freshly authenticated account as of `now`:
/// a token carrying exactly this identity with the standard lifetime, and
/// the identity fields echoed beside it. Success is owed whenever the
/// seven-day expiry is representable.
pub fn issue_auth_response(
    codec: &TokenCodec,
    user_id: i32,
    username: &str,
    is_admin: bool,
    now: i64,
) -> (r: Result<AuthResponse, AuthError>)
    ensures
        r is Ok <==> now + TOKEN_LIFETIME_SECS <= i64::MAX,
        r matches Ok(a) ==> a.user_id == user_id && a.username@ == username@ && a.is_admin
            == is_admin && claims_of(a.token@, codec.spec_secret()) == Some(
            (user_id as int, username@, is_admin, now + TOKEN_LIFETIME_SECS),
        ),
        r matches Ok(a) ==> forall|i: int|
            0 <= i < a.token@.len() ==> !crate::extract::is_space(#[trigger] a.token@[i]),
        r matches Err(e) ==> e == AuthError::EncodingError,
{
    match codec.create_token_at(user_id, username, is_admin, now) {
        Ok(token) => Ok(
            AuthResponse { token, user_id, username: username.to_owned(), is_admin },
        ),
        Err(e) => Err(e),
    }
}

/// The login decision as of `now`, after the caller has looked the username
/// up: no such account, or a password that `bcrypt` rejects, is the one
/// generic `Unauthenticated` outcome; a matching password is owed a response
/// whose token carries the stored identity (`EncodingError` is possible only
/// for a `now` whose seven-day expiry overflows).
pub fn login_check(
    codec: &TokenCodec,
    user: Option<&UserRecord>,
    credentials: &LoginRequest,
    now: i64,
) -> (r: Result<AuthResponse, AuthError>)
    ensures
        (match user {
            None => true,
            Some(u) => !bcrypt_matches(credentials.password@, u.password_hash@),
        }) <==> r == Err::<AuthResponse, AuthError>(AuthError::Unauthenticated),
        (user matches Some(u) && bcrypt_matches(credentials.password@, u.password_hash@) && now
            + TOKEN_LIFETIME_SECS <= i64::MAX) ==> r is Ok,
        r matches Ok(a) ==> (user matches Some(u) && bcrypt_matches(
            credentials.password@,
            u.password_hash@,
        ) && a.user_id == u.id && a.username@ == u.username@ && a.is_admin == u.is_admin
            && claims_of(a.token@, codec.spec_secret()) == Some(
            (u.id as int, u.username@, u.is_admin, now + TOKEN_LIFETIME_SECS),
        )),
        r matches Err(e) ==> (e == AuthError::Unauthenticated || e == AuthError::EncodingError),
{
    match user {
        None => Err(AuthError::Unauthenticated),
        Some(u) => {
            if bcrypt_verify(credentials.password.as_str(), u.password_hash.as_str()) {
                issue_auth_response(codec, u.id, u.username.as_str(), u.is_admin, now)
            } else {
                Err(AuthError::Unauthenticated)
            }
        },
    }
}

} // verus!
