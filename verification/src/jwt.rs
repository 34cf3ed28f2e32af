//! Token issuer and verifier: time-bounded bearer tokens carrying subject
//! identity and expiry, signed with a shared secret.
//!
//! Tokens are stateless: there is no server-side revocation list, so logout
//! is client-side token discard only (a scope limitation, not a defect).
//! The signing secret is handed in by the caller, loaded once at process
//! start; it never appears in any value this module returns.

use vstd::prelude::*;
use vstd::string::StrSliceExecFns;

use crate::error::AppError;
use crate::item::str_eq;

verus! {

/// How long an issued token stays valid, in seconds (24 hours).
pub const TOKEN_TTL_SECS: u64 = 24 * 3600;

/// Claims carried by a bearer token: subject id, email, absolute expiry
/// (seconds since the Unix epoch).
#[derive(Debug, Clone, PartialEq, Eq)]
pub struct Claims {
    pub sub: String,
    pub email: String,
    pub exp: u64,
}

/// Spec-level claims.
pub ghost struct ClaimsV {
    pub sub: Seq<char>,
    pub email: Seq<char>,
    pub exp: u64,
}

impl View for Claims {
    type V = ClaimsV;

    open spec fn view(&self) -> ClaimsV {
        ClaimsV { sub: self.sub@, email: self.email@, exp: self.exp }
    }
}

/// The compact token that signing the given claims with `secret` yields.
/// HMAC signing and the claim serialization are deterministic, so the token
/// is a function of the secret and the claims alone.
pub uninterp spec fn token_of(secret: Seq<char>, sub: Seq<char>, email: Seq<char>, exp: u64) -> Seq<
    char,
>;

/// The claims that signature-checked decoding of `token` under `secret`
/// recovers, if the signature and shape are valid; expiry is no part of
/// this, it is judged separately against a caller-supplied clock.
pub uninterp spec fn claims_of(secret: Seq<char>, token: Seq<char>) -> Option<
    (Seq<char>, Seq<char>, u64),
>;

/// Relies on `jsonwebtoken::encode` with a default (HS256) header: the token
/// is deterministic in the secret and the claims, and `jsonwebtoken::decode`
/// under the same secret returns exactly the claims that were encoded.
/// Signing cannot fail here, so the call is total: the key family matches
/// the header, an HMAC key of any length is accepted, string-keyed JSON
/// claims always serialize, and the HMAC signer's `try_sign` is
/// unconditionally `Ok`.
#[verifier::external_body]
fn encode_token(secret: &str, sub: &str, email: &str, exp: u64) -> (r: String)
    ensures
        r@ == token_of(secret@, sub@, email@, exp),
        claims_of(secret@, r@) == Some((sub@, email@, exp)),
{
    let mut claims = serde_json::Map::new();
    claims.insert("sub".to_owned(), serde_json::Value::String(sub.to_owned()));
    claims.insert("email".to_owned(), serde_json::Value::String(email.to_owned()));
    claims.insert("exp".to_owned(), serde_json::Value::from(exp));
    jsonwebtoken::encode(
        &jsonwebtoken::Header::default(),
        &serde_json::Value::Object(claims),
        &jsonwebtoken::EncodingKey::from_secret(secret.as_bytes()),
    ).expect("HS256 signing of string-keyed claims cannot fail")
}

/// Relies on `jsonwebtoken::decode::<serde_json::Value>` with signature-only
/// validation (expiry is judged by the caller, so no clock is read): the
/// result is deterministic in the secret and the token; a token whose
/// signature does not match the secret, or whose shape is wrong, is nothing.
#[verifier::external_body]
fn decode_token(secret: &str, token: &str) -> (r: Option<(String, String, u64)>)
    ensures
        match r {
            Some((sub, email, exp)) => claims_of(secret@, token@) == Some((sub@, email@, exp)),
            None => claims_of(secret@, token@) is None,
        },
{
    let mut validation = jsonwebtoken::Validation::new(jsonwebtoken::Algorithm::HS256);
    validation.validate_exp = false;
    validation.required_spec_claims.clear();
    let data = jsonwebtoken::decode::<serde_json::Value>(
        token,
        &jsonwebtoken::DecodingKey::from_secret(secret.as_bytes()),
        &validation,
    ).ok()?;
    let sub = data.claims.get("sub")?.as_str()?.to_owned();
    let email = data.claims.get("email")?.as_str()?.to_owned();
    let exp = data.claims.get("exp")?.as_u64()?;
    Some((sub, email, exp))
}

/// What token validation returns at instant `now`: the claims when the
/// signature checks out and the expiry is still ahead, nothing otherwise.
pub open spec fn validate_spec(secret: Seq<char>, token: Seq<char>, now: u64) -> Option<ClaimsV> {
    match claims_of(secret, token) {
        Some((sub, email, exp)) => if now < exp {
            Some(ClaimsV { sub, email, exp })
        } else {
            None
        },
        None => None,
    }
}

/// Issue then verify: a token that decodes to the claims it was issued with
/// validates to exactly those claims while the expiry is ahead, and to
/// nothing from the expiry on.
pub proof fn lemma_issue_then_verify(
    secret: Seq<char>,
    sub: Seq<char>,
    email: Seq<char>,
    exp: u64,
    now: u64,
)
    requires
        claims_of(secret, token_of(secret, sub, email, exp)) == Some((sub, email, exp)),
    ensures
        now < exp ==> validate_spec(secret, token_of(secret, sub, email, exp), now) == Some(
            ClaimsV { sub, email, exp },
        ),
        now >= exp ==> validate_spec(secret, token_of(secret, sub, email, exp), now) is None,
{
}

/// Issues a token for `user_id` and `email`, expiring 24 hours after `now`.
/// Issuance always succeeds, and the token validates to exactly these claims
/// at any instant before the expiry, and to nothing from the expiry on.
pub fn create_token(secret: &str, user_id: &str, email: &str, now: u64) -> (r: Result<
    String,
    AppError,
>)
    requires
        now + TOKEN_TTL_SECS <= u64::MAX,
    ensures
        r is Ok,
        match r {
            Ok(t) => {
                &&& t@ == token_of(secret@, user_id@, email@, (now + TOKEN_TTL_SECS) as u64)
                &&& claims_of(secret@, t@) == Some(
                    (user_id@, email@, (now + TOKEN_TTL_SECS) as u64),
                )
                &&& forall|later: u64|
                    validate_spec(secret@, t@, later) == if later < now + TOKEN_TTL_SECS {
                        Some(
                            ClaimsV {
                                sub: user_id@,
                                email: email@,
                                exp: (now + TOKEN_TTL_SECS) as u64,
                            },
                        )
                    } else {
                        None::<ClaimsV>
                    }
            },
            Err(_) => false,
        },
{
    let exp = now + TOKEN_TTL_SECS;
    let t = encode_token(secret, user_id, email, exp);
    proof {
        assert forall|later: u64|
            validate_spec(secret@, t@, later) == if later < now + TOKEN_TTL_SECS {
                Some(
                    ClaimsV { sub: user_id@, email: email@, exp: (now + TOKEN_TTL_SECS) as u64 },
                )
            } else {
                None::<ClaimsV>
            } by {
            lemma_issue_then_verify(secret@, user_id@, email@, exp, later);
        }
    }
    Ok(t)
}

/// Validates a token at instant `now`: checks the signature against the
/// secret and the expiry against `now`. A missing, malformed, tampered or
/// expired token yields `Unauthorized`, never a panic or a silent pass.
pub fn validate_token(secret: &str, token: &str, now: u64) -> (r: Result<Claims, AppError>)
    ensures
        match r {
            Ok(c) => validate_spec(secret@, token@, now) == Some(c@),
            Err(e) => validate_spec(secret@, token@, now) is None && e matches AppError::Unauthorized(
                _,
            ),
        },
{
    match decode_token(secret, token) {
        Some((sub, email, exp)) => {
            if now < exp {
                Ok(Claims { sub, email, exp })
            } else {
                Err(AppError::Unauthorized("Token expired".to_owned()))
            }
        },
        None => Err(AppError::Unauthorized("Invalid token".to_owned())),
    }
}

/// The token inside an Authorization header value: what follows the
/// `Bearer ` prefix; a value without that prefix carries none.
pub open spec fn bearer_spec(h: Seq<char>) -> Option<Seq<char>> {
    if h.len() >= 7 && h.subrange(0, 7) == "Bearer "@ {
        Some(h.subrange(7, h.len() as int))
    } else {
        None
    }
}

/// Extracts the bearer token from an Authorization header value; a value
/// not of the `Bearer ` shape is refused.
pub fn bearer_token<'a>(auth_header: &'a str) -> (r: Result<&'a str, AppError>)
    ensures
        match r {
            Ok(t) => bearer_spec(auth_header@) == Some(t@),
            Err(e) => bearer_spec(auth_header@) is None && e matches AppError::Unauthorized(_),
        },
{
    let n = auth_header.unicode_len();
    if n < 7 {
        return Err(AppError::Unauthorized("Invalid token format".to_owned()));
    }
    let prefix = auth_header.substring_char(0, 7);
    if !str_eq(prefix, "Bearer ") {
        return Err(AppError::Unauthorized("Invalid token format".to_owned()));
    }
    Ok(auth_header.substring_char(7, n))
}

} // verus!
