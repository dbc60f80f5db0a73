use axum_extra::headers::authorization::Bearer;
use axum_extra::headers::{Authorization, Header as TypedHeaderDecode};
use jsonwebtoken::{Algorithm, DecodingKey, EncodingKey, Header, Validation};
use serde_json::Map as ClaimMap;
use vstd::prelude::*;

use crate::utils::{now_timestamp, response_handler, Envelope, STATUS_UNAUTHORIZED};

verus! {

/// How long a minted token stays valid, in seconds (thirty days).
pub const TOKEN_TTL_SECS: i64 = 2592000;

/// Why a request carried no usable identity.
#[derive(Debug, Clone, Copy, PartialEq, Eq, Structural)]
pub enum AuthError {
    /// The token's signature or structure is wrong, or it has expired.
    InvalidToken,
    /// No `Authorization: Bearer <token>` header could be read.
    MissingToken,
}

impl AuthError {
    /// The status code and the envelope that report this error.
    pub fn into_response(self) -> (r: Envelope<()>)
        ensures
            r.code == STATUS_UNAUTHORIZED,
            r.message@ == "error"@,
            r.data is None,
            r.error is Some,
            self == AuthError::InvalidToken ==> r.error->Some_0@ == "Invalid token"@,
            self == AuthError::MissingToken ==> r.error->Some_0@ == "Missing token"@,
    {
        let text = match self {
            AuthError::InvalidToken => "Invalid token".to_string(),
            AuthError::MissingToken => "Missing token".to_string(),
        };
        response_handler(STATUS_UNAUTHORIZED, "error".to_string(), None, Some(text))
    }
}

/// The signed identity of a caller: who, and until when (epoch seconds).
#[derive(Debug, Clone)]
pub struct Claims {
    pub user_id: String,
    pub email: String,
    pub exp: i64,
}

/// The key material that signs and checks tokens, loaded once at startup.
#[derive(Debug, Clone)]
pub struct Keys {
    pub secret: Vec<u8>,
}

/// The claims `(user_id, email, exp)` that `token` carries under a valid
/// HS256 signature by `secret`, if any; expiry is not consulted.
pub uninterp spec fn token_claims(token: Seq<char>, secret: Seq<u8>) -> Option<
    (Seq<char>, Seq<char>, i64),
>;

/// The compact token that HS256 signing of the claims
/// `{user_id, email, exp}` under `secret` yields.
pub uninterp spec fn signed_token(user_id: Seq<char>, email: Seq<char>, exp: i64, secret: Seq<u8>) -> Seq<
    char,
>;

/// `token` carries the claims `(user_id, email, exp)` under `secret` when
/// `exp` is not negative, and no claims at all otherwise.
pub open spec fn minted(
    token: Seq<char>,
    user_id: Seq<char>,
    email: Seq<char>,
    exp: i64,
    secret: Seq<u8>,
) -> bool {
    if exp >= 0 {
        token_claims(token, secret) == Some((user_id, email, exp))
    } else {
        token_claims(token, secret) is None
    }
}

/// Relies on `jsonwebtoken::encode` with the default header (HS256) and
/// `EncodingKey::from_secret`: with an HMAC key and a JSON map it cannot
/// fail, the result depends on its arguments alone, and it joins three
/// parts with dots. Relies also on `jsonwebtoken::decode` under the same
/// secret: the token decodes to the claims it was given, except that a
/// negative `exp` does not read as the unsigned number decoding requires.
#[verifier::external_body]
fn sign_claims(user_id: &str, email: &str, exp: i64, secret: &[u8]) -> (r: Result<String, String>)
    ensures
        r is Ok,
        r->Ok_0@ == signed_token(user_id@, email@, exp, secret@),
        r->Ok_0@.len() > 0,
        minted(r->Ok_0@, user_id@, email@, exp, secret@),
{
    let mut claims = ClaimMap::new();
    claims.insert("user_id".to_string(), serde_json::Value::from(user_id));
    claims.insert("email".to_string(), serde_json::Value::from(email));
    claims.insert("exp".to_string(), serde_json::Value::from(exp));
    jsonwebtoken::encode(&Header::default(), &claims, &EncodingKey::from_secret(secret)).map_err(
        |e| e.to_string(),
    )
}

/// Relies on `jsonwebtoken::decode` with `DecodingKey::from_secret` and an
/// HS256 `Validation` whose expiry check is switched off: the signature and
/// the presence of `exp` are checked, so the outcome depends on the token and
/// the secret alone.
#[verifier::external_body]
fn open_token(token: &str, secret: &[u8]) -> (r: Option<(String, String, i64)>)
    ensures
        r is Some ==> token_claims(token@, secret@) == Some(
            (r->Some_0.0@, r->Some_0.1@, r->Some_0.2),
        ),
        r is None ==> token_claims(token@, secret@) is None,
{
    let mut validation = Validation::new(Algorithm::HS256);
    validation.validate_exp = false;
    let key = DecodingKey::from_secret(secret);
    let data = jsonwebtoken::decode::<ClaimMap<String, serde_json::Value>>(token, &key, &validation).ok()?;
    let c = data.claims;
    let user_id = c.get("user_id")?.as_str()?.to_string();
    let email = c.get("email")?.as_str()?.to_string();
    Some((user_id, email, c.get("exp")?.as_i64()?))
}

/// The credential of an `Authorization` header value of the Bearer scheme.
pub uninterp spec fn bearer_credential(value: Seq<char>) -> Option<Seq<char>>;

/// Relies on the typed-header decoding of `Authorization<Bearer>` from
/// axum_extra and on `Bearer::token`: the outcome depends on the header
/// value alone.
#[verifier::external_body]
fn decode_bearer(value: &str) -> (r: Option<String>)
    ensures
        r is Some ==> bearer_credential(value@) == Some(r->Some_0@),
        r is None ==> bearer_credential(value@) is None,
{
    let header = axum::http::HeaderValue::from_str(value).ok()?;
    let auth = <Authorization<Bearer> as TypedHeaderDecode>::decode(
        &mut std::iter::once(&header),
    ).ok()?;
    Some(auth.token().to_string())
}

pub open spec fn claims_view(c: Claims) -> (Seq<char>, Seq<char>, i64) {
    (c.user_id@, c.email@, c.exp)
}

/// What validating `token` under `secret` at time `now` yields: the carried
/// claims while `exp` lies in the future, else `InvalidToken`.
pub open spec fn validation_outcome(token: Seq<char>, secret: Seq<u8>, now: i64) -> Result<
    (Seq<char>, Seq<char>, i64),
    AuthError,
> {
    match token_claims(token, secret) {
        Some(c) => if c.2 > now {
            Ok(c)
        } else {
            Err(AuthError::InvalidToken)
        },
        None => Err(AuthError::InvalidToken),
    }
}

/// What extracting claims from an optional `Authorization` header yields.
pub open spec fn extraction_outcome(
    authorization: Option<Seq<char>>,
    secret: Seq<u8>,
    now: i64,
) -> Result<(Seq<char>, Seq<char>, i64), AuthError> {
    match authorization {
        None => Err(AuthError::MissingToken),
        Some(v) => match bearer_credential(v) {
            None => Err(AuthError::MissingToken),
            Some(t) => validation_outcome(t, secret, now),
        },
    }
}

pub open spec fn matches_outcome(
    r: Result<Claims, AuthError>,
    o: Result<(Seq<char>, Seq<char>, i64), AuthError>,
) -> bool {
    match r {
        Ok(c) => o == Ok::<(Seq<char>, Seq<char>, i64), AuthError>(claims_view(c)),
        Err(e) => o == Err::<(Seq<char>, Seq<char>, i64), AuthError>(e),
    }
}

impl Keys {
    pub fn new(secret: &[u8]) -> (r: Keys)
        ensures
            r.secret@ == secret@,
    {
        Keys { secret: vstd::slice::slice_to_vec(secret) }
    }
}

impl Claims {
    /// Claims for `(user_id, email)` that expire `TOKEN_TTL_SECS` after `now`.
    pub fn issued_at(user_id: String, email: String, now: i64) -> (r: Claims)
        requires
            now <= i64::MAX - TOKEN_TTL_SECS,
        ensures
            r.user_id == user_id,
            r.email == email,
            r.exp == now + TOKEN_TTL_SECS,
    {
        Claims { user_id, email, exp: now + TOKEN_TTL_SECS }
    }

    /// Claims for `(user_id, email)` that expire `TOKEN_TTL_SECS` from the
    /// current time.
    pub fn new(user_id: String, email: String) -> (r: Claims)
        ensures
            r.user_id == user_id,
            r.email == email,
            r.exp >= TOKEN_TTL_SECS,
    {
        let now = now_timestamp();
        Claims::issued_at(user_id, email, now)
    }

    pub open spec fn valid_at(&self, now: i64) -> bool {
        self.exp > now
    }

    /// Whether the claims are still valid at time `now`.
    pub fn is_ok_at(&self, now: i64) -> (r: bool)
        ensures
            r == (self.exp > now),
    {
        self.exp > now
    }

    /// Whether the claims are still valid at the current time.
    pub fn is_ok(&self) -> (r: bool)
        ensures
            exists|now: i64| 0 <= now <= 9_000_000_000_000 && r == #[trigger] self.valid_at(now),
    {
        let now = now_timestamp();
        let r = self.is_ok_at(now);
        assert(r == self.valid_at(now));
        r
    }

    /// Signs the claims into a compact token under `keys`; equal claims
    /// under equal keys give equal tokens.
    pub fn to_token(&self, keys: &Keys) -> (r: Result<String, String>)
        ensures
            r is Ok,
            r->Ok_0@ == signed_token(self.user_id@, self.email@, self.exp, keys.secret@),
            r->Ok_0@.len() > 0,
            minted(r->Ok_0@, self.user_id@, self.email@, self.exp, keys.secret@),
    {
        sign_claims(self.user_id.as_str(), self.email.as_str(), self.exp, keys.secret.as_slice())
    }
}

/// Checks the signature of `token` under `keys` and that it has not expired
/// at time `now`.
pub fn validate_jwt(token: &str, keys: &Keys, now: i64) -> (r: Result<Claims, AuthError>)
    ensures
        matches_outcome(r, validation_outcome(token@, keys.secret@, now)),
{
    match open_token(token, keys.secret.as_slice()) {
        Some((user_id, email, exp)) => {
            if exp > now {
                Ok(Claims { user_id, email, exp })
            } else {
                Err(AuthError::InvalidToken)
            }
        },
        None => Err(AuthError::InvalidToken),
    }
}

/// Reads the claims of a request from its `Authorization` header value:
/// `MissingToken` when the header is absent or not of the Bearer scheme,
/// else the outcome of validating the credential at time `now`.
pub fn extract_bearer_token(authorization: Option<&str>, keys: &Keys, now: i64) -> (r: Result<
    Claims,
    AuthError,
>)
    ensures
        matches_outcome(
            r,
            extraction_outcome(
                match authorization {
                    Some(v) => Some(v@),
                    None => None,
                },
                keys.secret@,
                now,
            ),
        ),
{
    match authorization {
        None => Err(AuthError::MissingToken),
        Some(value) => match decode_bearer(value) {
            None => Err(AuthError::MissingToken),
            Some(token) => validate_jwt(token.as_str(), keys, now),
        },
    }
}

/// A token minted for `(user_id, email, exp)` under a secret validates under
/// that secret, to those claims, at every moment before `exp`, and fails
/// with `InvalidToken` at every moment from `exp` on. A token minted with a
/// negative `exp` never validates.
pub proof fn minted_token_valid_until_expiry(
    user_id: Seq<char>,
    email: Seq<char>,
    exp: i64,
    secret: Seq<u8>,
    token: Seq<char>,
    now: i64,
)
    requires
        minted(token, user_id, email, exp, secret),
    ensures
        exp >= 0 && now < exp ==> validation_outcome(token, secret, now) == Ok::<
            (Seq<char>, Seq<char>, i64),
            AuthError,
        >((user_id, email, exp)),
        now >= exp || exp < 0 ==> validation_outcome(token, secret, now) == Err::<
            (Seq<char>, Seq<char>, i64),
            AuthError,
        >(AuthError::InvalidToken),
{
}

} // verus!
