//! The token codec: minting and checking signed, self-contained credentials.
//!
//! A token carries four claims — subject id, username, admin flag and expiry —
//! signed with a process-wide shared secret. Validity is computable from the
//! token text and the secret alone; no server-side state is consulted.
//!
//! The signing and signature checking themselves are done by the `jsonwebtoken`
//! crate behind two trusted wrappers. What that crate accepts under a given
//! secret is named by the uninterpreted function [`claims_of`]; everything the
//! codec promises is phrased over that name, and the expiry comparison and the
//! subject-range check are carried out in verified code.

use jsonwebtoken::{decode, encode, DecodingKey, EncodingKey, Header, Validation};
use serde_json::Map as JsonMap;
use serde_json::Value;
use vstd::prelude::*;

use crate::errors::AuthError;

verus! {

/// Tokens expire this many seconds (seven days) after issuance.
pub const TOKEN_LIFETIME_SECS: i64 = 7 * 24 * 60 * 60;

/// The claims bundle embedded in a token: subject id, username at issuance,
/// admin flag at issuance, and the absolute expiry time in unix seconds.
#[derive(Debug, Clone)]
pub struct Claims {
    pub sub: i32,
    pub username: String,
    pub is_admin: bool,
    pub exp: i64,
}

/// The body returned to a client after a successful login or registration.
#[derive(Debug, Clone)]
pub struct AuthResponse {
    pub token: String,
    pub user_id: i32,
    pub username: String,
    pub is_admin: bool,
}

/// The claims fields that `jsonwebtoken` hands back before any range or
/// expiry policy of this crate is applied: the subject may be any integer the
/// wire format can carry.
struct RawClaims {
    sub: i64,
    username: String,
    is_admin: bool,
    exp: i64,
}

/// What decoding a token under a secret yields: `None` if the signature does
/// not match or the structure is malformed, otherwise the claims fields
/// `(subject, username, admin flag, expiry)`. This names the outcome of
/// `jsonwebtoken::decode` (with the expiry check left to this crate), which
/// depends on the token text and the secret alone.
pub uninterp spec fn claims_of(token: Seq<char>, secret: Seq<u8>) -> Option<(int, Seq<char>, bool, int)>;

/// The claims a token yields once this crate's own acceptance policy is
/// applied on top of [`claims_of`]: the subject must fit the subject id type
/// and the expiry must lie strictly in the future.
pub open spec fn accepted_claims(token: Seq<char>, secret: Seq<u8>, now: int) -> Option<
    (int, Seq<char>, bool, int),
> {
    match claims_of(token, secret) {
        Some(q) => if i32::MIN <= q.0 <= i32::MAX && q.3 > now {
            Some(q)
        } else {
            None
        },
        None => None,
    }
}

/// A token carries the given identity when decoding it yields exactly that
/// subject, username and admin flag (whatever the expiry).
pub open spec fn encodes_identity(
    token: Seq<char>,
    secret: Seq<u8>,
    sub: int,
    username: Seq<char>,
    is_admin: bool,
) -> bool {
    match claims_of(token, secret) {
        Some(q) => q.0 == sub && q.1 == username && q.2 == is_admin,
        None => false,
    }
}

/// Round trip: a token whose decoded claims are exactly an issued identity,
/// with an expiry still in the future, is accepted whole — the subject,
/// username, admin flag and expiry all come back unchanged. Together with
/// [`TokenCodec::create_token_at`], whose tokens decode to their claims with
/// expiry exactly [`TOKEN_LIFETIME_SECS`] after issuance, this is the
/// issue-then-verify round trip.
pub proof fn lemma_round_trip(
    token: Seq<char>,
    secret: Seq<u8>,
    sub: int,
    username: Seq<char>,
    is_admin: bool,
    exp: int,
    now: int,
)
    requires
        claims_of(token, secret) == Some((sub, username, is_admin, exp)),
        i32::MIN <= sub <= i32::MAX,
        exp > now,
    ensures
        accepted_claims(token, secret, now) == Some((sub, username, is_admin, exp)),
        encodes_identity(token, secret, sub, username, is_admin),
{
}

/// Expiry boundary: whatever a token decodes to, it is accepted at a moment
/// strictly before its expiry and refused from its expiry on; and every
/// accepted token is unexpired.
pub proof fn lemma_expiry_boundary(token: Seq<char>, secret: Seq<u8>, now: int)
    ensures
        accepted_claims(token, secret, now) matches Some(q) ==> q.3 > now,
        (claims_of(token, secret) matches Some(q) && !(q.3 > now)) ==> accepted_claims(
            token,
            secret,
            now,
        ) is None,
{
}

/// Relies on `jsonwebtoken::encode` with the default `HS256` header: signing
/// is deterministic, and `jsonwebtoken::decode` under the same secret accepts
/// the produced token and hands back exactly the claims that were signed.
/// In this configuration the call cannot fail — the key and header families
/// agree by construction, serializing a JSON object is infallible, and HMAC
/// signing returns no error — so success is owed. The token text is
/// dot-separated base64url, so none of its characters is whitespace.
#[verifier::external_body]
fn jwt_encode(claims: &Claims, secret: &Vec<u8>) -> (r: Result<String, AuthError>)
    ensures
        r is Ok,
        r matches Ok(t) ==> claims_of(t@, secret@) == Some(
            (claims.sub as int, claims.username@, claims.is_admin, claims.exp as int),
        ),
        r matches Ok(t) ==> forall|i: int|
            0 <= i < t@.len() ==> !crate::extract::is_space(#[trigger] t@[i]),
{
    let mut m = JsonMap::new();
    m.insert("sub".to_string(), Value::from(claims.sub));
    m.insert("username".to_string(), Value::from(claims.username.clone()));
    m.insert("is_admin".to_string(), Value::from(claims.is_admin));
    m.insert("exp".to_string(), Value::from(claims.exp));
    let key = EncodingKey::from_secret(secret);
    match encode(&Header::default(), &Value::Object(m), &key) {
        Ok(t) => Ok(t),
        Err(_) => Err(AuthError::EncodingError),
    }
}

/// Relies on `jsonwebtoken::decode` with signature checking on and the expiry
/// check off: whether a token is accepted, and which claims come back, depend
/// on the token text and the secret alone, which is what [`claims_of`] names.
#[verifier::external_body]
fn jwt_decode(token: &[char], secret: &Vec<u8>) -> (r: Result<RawClaims, AuthError>)
    ensures
        r is Ok <==> claims_of(token@, secret@) is Some,
        r matches Ok(c) ==> claims_of(token@, secret@) == Some(
            (c.sub as int, c.username@, c.is_admin, c.exp as int),
        ),
        r matches Err(e) ==> e == AuthError::InvalidCredential,
{
    let text: String = token.iter().collect();
    let mut v = Validation::default();
    v.validate_exp = false;
    v.required_spec_claims.clear();
    let d = match decode::<Value>(&text, &DecodingKey::from_secret(secret), &v) {
        Ok(d) => d.claims,
        Err(_) => return Err(AuthError::InvalidCredential),
    };
    match (d["sub"].as_i64(), d["username"].as_str(), d["is_admin"].as_bool(), d["exp"].as_i64()) {
        (Some(sub), Some(u), Some(is_admin), Some(exp)) => Ok(RawClaims { sub, username: u.to_string(), is_admin, exp }),
        _ => Err(AuthError::InvalidCredential),
    }
}

/// Relies on `chrono::Utc::now`: the current moment, as unix seconds. That
/// call aborts when the system clock reads before 1970, so this crate, like
/// the original program, does not run on such a system.
#[verifier::external_body]
pub(crate) fn now_unix() -> i64 {
    chrono::Utc::now().timestamp()
}

/// The token codec, holding the immutable process-wide signing secret.
pub struct TokenCodec {
    secret: Vec<u8>,
}

impl TokenCodec {
    /// The signing secret, for contracts.
    pub closed spec fn spec_secret(&self) -> Seq<u8> {
        self.secret@
    }

    /// A codec over the given secret.
    pub fn new(secret: Vec<u8>) -> (c: Self)
        ensures
            c.spec_secret() == secret@,
    {
        TokenCodec { secret }
    }

    /// A codec from startup configuration: an absent secret is the fatal
    /// boot-time condition, reported as `ConfigurationError`.
    pub fn from_config(secret: Option<Vec<u8>>) -> (r: Result<Self, AuthError>)
        ensures
            secret matches Some(s) ==> (r matches Ok(c) && c.spec_secret() == s@),
            secret is None <==> r == Err::<TokenCodec, AuthError>(AuthError::ConfigurationError),
    {
        match secret {
            Some(s) => Ok(TokenCodec { secret: s }),
            None => Err(AuthError::ConfigurationError),
        }
    }

    /// Mint a token for the given identity as of `now`: the claims carry the
    /// identity unchanged and expire exactly [`TOKEN_LIFETIME_SECS`] later.
    /// Success is owed whenever the expiry is representable; an expiry beyond
    /// the representable range is reported as `EncodingError`.
    pub fn create_token_at(
        &self,
        user_id: i32,
        username: &str,
        is_admin: bool,
        now: i64,
    ) -> (r: Result<String, AuthError>)
        ensures
            r is Ok <==> now + TOKEN_LIFETIME_SECS <= i64::MAX,
            r matches Ok(t) ==> claims_of(t@, self.spec_secret()) == Some(
                (user_id as int, username@, is_admin, now + TOKEN_LIFETIME_SECS),
            ),
            r matches Ok(t) ==> forall|i: int|
                0 <= i < t@.len() ==> !crate::extract::is_space(#[trigger] t@[i]),
            r matches Err(e) ==> e == AuthError::EncodingError,
    {
        if now > i64::MAX - TOKEN_LIFETIME_SECS {
            return Err(AuthError::EncodingError);
        }
        let claims = Claims {
            sub: user_id,
            username: username.to_owned(),
            is_admin,
            exp: now + TOKEN_LIFETIME_SECS,
        };
        jwt_encode(&claims, &self.secret)
    }

    /// Mint a token for the given identity as of the current clock reading.
    /// The clock is the one thing the contract cannot fix: failure is
    /// possible only for a reading whose seven-day expiry overflows.
    pub fn create_token(&self, user_id: i32, username: &str, is_admin: bool) -> (r: Result<
        String,
        AuthError,
    >)
        ensures
            r matches Ok(t) ==> encodes_identity(
                t@,
                self.spec_secret(),
                user_id as int,
                username@,
                is_admin,
            ),
            r matches Ok(t) ==> forall|i: int|
                0 <= i < t@.len() ==> !crate::extract::is_space(#[trigger] t@[i]),
            r matches Err(e) ==> e == AuthError::EncodingError,
    {
        let now = now_unix();
        self.create_token_at(user_id, username, is_admin, now)
    }

    /// Check a token, given as its characters, against the secret and the
    /// moment `now`: all-or-nothing, with every failure collapsed into
    /// `InvalidCredential`. Acceptance is exactly [`accepted_claims`]: the
    /// signature must match, the subject must fit, and the expiry must lie
    /// strictly after `now`.
    pub fn validate_token_chars(&self, token: &[char], now: i64) -> (r: Result<Claims, AuthError>)
        ensures
            r is Ok <==> accepted_claims(token@, self.spec_secret(), now as int) is Some,
            r matches Ok(c) ==> accepted_claims(token@, self.spec_secret(), now as int) == Some(
                (c.sub as int, c.username@, c.is_admin, c.exp as int),
            ),
            r matches Err(e) ==> e == AuthError::InvalidCredential,
    {
        match jwt_decode(token, &self.secret) {
            Ok(raw) => {
                if raw.sub < i32::MIN as i64 || raw.sub > i32::MAX as i64 {
                    Err(AuthError::InvalidCredential)
                } else if raw.exp > now {
                    Ok(Claims {
                        sub: raw.sub as i32,
                        username: raw.username,
                        is_admin: raw.is_admin,
                        exp: raw.exp,
                    })
                } else {
                    Err(AuthError::InvalidCredential)
                }
            },
            Err(e) => Err(e),
        }
    }

    /// Check a token against the secret and the moment `now`; the same
    /// all-or-nothing acceptance as [`Self::validate_token_chars`].
    pub fn validate_token_at(&self, token: &str, now: i64) -> (r: Result<Claims, AuthError>)
        ensures
            r is Ok <==> accepted_claims(token@, self.spec_secret(), now as int) is Some,
            r matches Ok(c) ==> accepted_claims(token@, self.spec_secret(), now as int) == Some(
                (c.sub as int, c.username@, c.is_admin, c.exp as int),
            ),
            r matches Err(e) ==> e == AuthError::InvalidCredential,
    {
        let chars = crate::extract::chars_of(token);
        self.validate_token_chars(chars.as_slice(), now)
    }

    /// Check a token against the secret as of the current clock reading.
    pub fn validate_token(&self, token: &str) -> (r: Result<Claims, AuthError>)
        ensures
            claims_of(token@, self.spec_secret()) is None ==> r is Err,
            r matches Ok(c) ==> claims_of(token@, self.spec_secret()) == Some(
                (c.sub as int, c.username@, c.is_admin, c.exp as int),
            ),
            r matches Err(e) ==> e == AuthError::InvalidCredential,
    {
        let now = now_unix();
        self.validate_token_at(token, now)
    }
}

} // verus!
