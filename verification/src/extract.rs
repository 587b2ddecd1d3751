//! The authentication extractor: from an `Authorization` header to a
//! verified identity, or a single `Unauthenticated` rejection.
//!
//! The header must carry the exact `"Bearer "` scheme — case-sensitive, one
//! space — and the token text after it is trimmed of surrounding whitespace
//! before the codec checks it. No other scheme is accepted, and no
//! distinction between a missing header, a bad scheme and a bad token is
//! surfaced to the caller.

use vstd::prelude::*;

use crate::errors::AuthError;
use crate::token::{accepted_claims, claims_of, TokenCodec};

verus! {

broadcast use vstd::string::axiom_spec_iter;

/// The whitespace trimmed around the token text: the Unicode white-space
/// characters — exactly the set `char::is_whitespace` reports — written out.
pub open spec fn is_space(c: char) -> bool {
    c == ' ' || c == '\t' || c == '\n' || c == '\u{b}' || c == '\u{c}' || c == '\r' || c
        == '\u{85}' || c == '\u{a0}' || c == '\u{1680}' || c == '\u{2000}' || c == '\u{2001}' || c
        == '\u{2002}' || c == '\u{2003}' || c == '\u{2004}' || c == '\u{2005}' || c == '\u{2006}'
        || c == '\u{2007}' || c == '\u{2008}' || c == '\u{2009}' || c == '\u{200a}' || c
        == '\u{2028}' || c == '\u{2029}' || c == '\u{202f}' || c == '\u{205f}' || c == '\u{3000}'
}

/// The characters left after removing leading whitespace.
pub open spec fn trim_left(s: Seq<char>) -> Seq<char>
    decreases s.len(),
{
    if s.len() > 0 && is_space(s[0]) {
        trim_left(s.drop_first())
    } else {
        s
    }
}

/// The characters left after removing trailing whitespace.
pub open spec fn trim_right(s: Seq<char>) -> Seq<char>
    decreases s.len(),
{
    if s.len() > 0 && is_space(s[s.len() - 1]) {
        trim_right(s.drop_last())
    } else {
        s
    }
}

/// The characters left after removing whitespace at both ends.
pub open spec fn trim_spaces(s: Seq<char>) -> Seq<char> {
    trim_right(trim_left(s))
}

/// Whether the header value starts with the exact scheme `"Bearer "`:
/// case-sensitive, a single space, nothing else accepted.
pub open spec fn has_bearer_prefix(h: Seq<char>) -> bool {
    h.len() >= 7 && h[0] == 'B' && h[1] == 'e' && h[2] == 'a' && h[3] == 'r' && h[4] == 'e'
        && h[5] == 'r' && h[6] == ' '
}

/// The token text a header value yields: everything after the `"Bearer "`
/// prefix, trimmed — or nothing, when the scheme is not the exact one.
pub open spec fn bearer_token(h: Seq<char>) -> Option<Seq<char>> {
    if has_bearer_prefix(h) {
        Some(trim_spaces(h.skip(7)))
    } else {
        None
    }
}

/// The identity a request presents, as a `(subject, username, admin flag)`
/// triple: the header must exist, carry the scheme, and its token must be
/// accepted by the codec at the moment `now`. Anything else yields nothing.
pub open spec fn identity_of(header: Option<Seq<char>>, secret: Seq<u8>, now: int) -> Option<
    (int, Seq<char>, bool),
> {
    match header {
        Some(h) => match bearer_token(h) {
            Some(tok) => match accepted_claims(tok, secret, now) {
                Some(q) => Some((q.0, q.1, q.2)),
                None => None,
            },
            None => None,
        },
        None => None,
    }
}

/// The view of an optional header value.
pub open spec fn header_view(h: Option<&str>) -> Option<Seq<char>> {
    match h {
        Some(s) => Some(s@),
        None => None,
    }
}

/// Scheme enforcement: a missing header, or any header value that does not
/// start with the exact characters `"Bearer "`, yields no identity at any
/// moment, under any secret — so the extractor rejects it.
pub proof fn lemma_scheme_enforcement(header: Option<Seq<char>>, secret: Seq<u8>, now: int)
    requires
        match header {
            Some(h) => !has_bearer_prefix(h),
            None => true,
        },
    ensures
        identity_of(header, secret, now) is None,
{
}

/// Whitespace-free text is left unchanged by trimming.
proof fn lemma_trim_spaces_identity(s: Seq<char>)
    requires
        forall|i: int| 0 <= i < s.len() ==> !is_space(s[i]),
    ensures
        trim_spaces(s) == s,
{
}

/// Issue-then-extract: a header built as the exact scheme followed by a
/// whitespace-free token whose claims are accepted yields exactly that
/// identity. The minting contracts state that every issued token is
/// whitespace-free and decodes to its claims, so this closes the round trip
/// from issuance through the extractor.
pub proof fn lemma_bearer_extraction(
    tok: Seq<char>,
    secret: Seq<u8>,
    sub: int,
    username: Seq<char>,
    is_admin: bool,
    exp: int,
    now: int,
)
    requires
        forall|i: int| 0 <= i < tok.len() ==> !is_space(tok[i]),
        claims_of(tok, secret) == Some((sub, username, is_admin, exp)),
        i32::MIN <= sub <= i32::MAX,
        exp > now,
    ensures
        identity_of(Some("Bearer "@ + tok), secret, now) == Some((sub, username, is_admin)),
{
    reveal_strlit("Bearer ");
    let h = "Bearer "@ + tok;
    assert(has_bearer_prefix(h));
    assert(h.skip(7) =~= tok);
    lemma_trim_spaces_identity(tok);
}

/// The characters of a string, in order.
pub fn chars_of(s: &str) -> (v: Vec<char>)
    ensures
        v@ == s@,
{
    let mut v: Vec<char> = Vec::new();
    for c in it: s.chars()
        invariant
            it.seq() == s@,
            v@ == s@.take(it.index() as int),
    {
        proof {
            assert(s@.take(it.index() as int + 1) =~= s@.take(it.index() as int).push(
                s@[it.index() as int],
            ));
        }
        v.push(c);
    }
    proof {
        assert(s@.take(s@.len() as int) =~= s@);
    }
    v
}

fn is_space_char(c: char) -> (r: bool)
    ensures
        r == is_space(c),
{
    c == ' ' || c == '\t' || c == '\n' || c == '\u{b}' || c == '\u{c}' || c == '\r' || c
        == '\u{85}' || c == '\u{a0}' || c == '\u{1680}' || c == '\u{2000}' || c == '\u{2001}' || c
        == '\u{2002}' || c == '\u{2003}' || c == '\u{2004}' || c == '\u{2005}' || c == '\u{2006}'
        || c == '\u{2007}' || c == '\u{2008}' || c == '\u{2009}' || c == '\u{200a}' || c
        == '\u{2028}' || c == '\u{2029}' || c == '\u{202f}' || c == '\u{205f}' || c == '\u{3000}'
}

proof fn lemma_trim_left_is_subrange(s: Seq<char>, i: int)
    requires
        0 <= i <= s.len(),
        forall|k: int| 0 <= k < i ==> is_space(s[k]),
        i == s.len() || !is_space(s[i]),
    ensures
        trim_left(s) == s.subrange(i, s.len() as int),
    decreases i,
{
    if i == 0 {
        assert(s.subrange(0, s.len() as int) =~= s);
    } else {
        let t = s.drop_first();
        assert(forall|k: int| 0 <= k < i - 1 ==> is_space(t[k]));
        lemma_trim_left_is_subrange(t, i - 1);
        assert(t.subrange(i - 1, t.len() as int) =~= s.subrange(i, s.len() as int));
    }
}

proof fn lemma_trim_right_is_subrange(s: Seq<char>, j: int)
    requires
        0 <= j <= s.len(),
        forall|k: int| j <= k < s.len() ==> is_space(s[k]),
        j == 0 || !is_space(s[j - 1]),
    ensures
        trim_right(s) == s.subrange(0, j),
    decreases s.len() - j,
{
    if j == s.len() {
        assert(s.subrange(0, s.len() as int) =~= s);
    } else {
        let t = s.drop_last();
        assert(is_space(s[s.len() - 1]));
        assert(forall|k: int| j <= k < t.len() ==> is_space(t[k]));
        lemma_trim_right_is_subrange(t, j);
        assert(t.subrange(0, j) =~= s.subrange(0, j));
    }
}

/// Extract the trimmed token text from a header value, or nothing when the
/// value does not carry the exact `"Bearer "` scheme.
pub fn parse_bearer(header: &Vec<char>) -> (r: Option<Vec<char>>)
    ensures
        r is Some <==> bearer_token(header@) is Some,
        r matches Some(t) ==> bearer_token(header@) == Some(t@),
{
    let n = header.len();
    if n < 7 || header[0] != 'B' || header[1] != 'e' || header[2] != 'a' || header[3] != 'r'
        || header[4] != 'e' || header[5] != 'r' || header[6] != ' ' {
        return None;
    }
    let mut i: usize = 7;
    while i < n && is_space_char(header[i])
        invariant
            7 <= i <= n,
            n == header@.len(),
            forall|k: int| 7 <= k < i ==> is_space(header@[k]),
        decreases n - i,
    {
        i = i + 1;
    }
    let mut j: usize = n;
    while j > i && is_space_char(header[j - 1])
        invariant
            i <= j <= n,
            n == header@.len(),
            forall|k: int| j <= k < n ==> is_space(header@[k]),
        decreases j,
    {
        j = j - 1;
    }
    let token = vstd::slice::slice_to_vec(vstd::slice::slice_subrange(header.as_slice(), i, j));
    proof {
        let h = header@;
        let rest = h.skip(7);
        assert(forall|k: int| 0 <= k < i - 7 ==> is_space(rest[k]));
        assert(i - 7 == rest.len() || !is_space(rest[i - 7]));
        lemma_trim_left_is_subrange(rest, i - 7);
        assert(rest.subrange(i - 7, rest.len() as int) =~= h.subrange(i as int, n as int));
        let u = h.subrange(i as int, n as int);
        assert(forall|k: int| j - i <= k < u.len() ==> is_space(u[k]));
        assert(j - i == 0 || !is_space(u[j - i - 1]));
        lemma_trim_right_is_subrange(u, j - i);
        assert(u.subrange(0, j - i) =~= h.subrange(i as int, j as int));
        assert(trim_spaces(rest) == h.subrange(i as int, j as int));
    }
    Some(token)
}

/// The request-scoped identity derived from verified claims: constructed by
/// the extractor, read by the role guard, never persisted.
#[derive(Debug, Clone)]
pub struct AuthenticatedUser {
    pub user_id: i32,
    pub username: String,
    pub is_admin: bool,
}

impl AuthenticatedUser {
    /// Turn an optional `Authorization` header value into a verified identity
    /// as of the moment `now`. Succeeds exactly when [`identity_of`] yields
    /// an identity; every failure — missing header, wrong scheme, bad or
    /// expired token — is the single `Unauthenticated` rejection.
    pub fn from_request_at(codec: &TokenCodec, header: Option<&str>, now: i64) -> (r: Result<
        AuthenticatedUser,
        AuthError,
    >)
        ensures
            r is Ok <==> identity_of(header_view(header), codec.spec_secret(), now as int)
                is Some,
            r matches Ok(u) ==> identity_of(header_view(header), codec.spec_secret(), now as int)
                == Some((u.user_id as int, u.username@, u.is_admin)),
            r matches Err(e) ==> e == AuthError::Unauthenticated,
    {
        let h = match header {
            Some(h) => h,
            None => {
                return Err(AuthError::Unauthenticated);
            },
        };
        let hchars = chars_of(h);
        let token = match parse_bearer(&hchars) {
            Some(t) => t,
            None => {
                return Err(AuthError::Unauthenticated);
            },
        };
        match codec.validate_token_chars(token.as_slice(), now) {
            Ok(c) => Ok(
                AuthenticatedUser { user_id: c.sub, username: c.username, is_admin: c.is_admin },
            ),
            Err(_) => Err(AuthError::Unauthenticated),
        }
    }

    /// Turn an optional `Authorization` header value into a verified identity
    /// as of the current clock reading.
    pub fn from_request(codec: &TokenCodec, header: Option<&str>) -> (r: Result<
        AuthenticatedUser,
        AuthError,
    >)
        ensures
            header is None ==> r is Err,
            r matches Err(e) ==> e == AuthError::Unauthenticated,
            r matches Ok(u) ==> (header matches Some(h) && bearer_token(h@) matches Some(tok)
                && crate::token::encodes_identity(
                tok,
                codec.spec_secret(),
                u.user_id as int,
                u.username@,
                u.is_admin,
            )),
    {
        let now = crate::token::now_unix();
        Self::from_request_at(codec, header, now)
    }
}

} // verus!
