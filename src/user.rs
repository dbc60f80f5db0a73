use vstd::prelude::*;

use crate::claim::{minted, signed_token, Claims, Keys, TOKEN_TTL_SECS};
use crate::password::{
    has_argon2id_prefix, hash_password, verify_outcome, verify_password, PasswordError,
};
use crate::utils::{
    error_response, now_timestamp, response_handler, status_of, ApiError, Envelope, STATUS_OK,
};

verus! {

/// An account; `email` is its key in the store, `password` its hash at
/// rest, `created_at` its creation time in epoch seconds.
#[derive(Debug, Clone)]
pub struct User {
    pub id: String,
    pub user_id: String,
    pub email: String,
    pub password: String,
    pub ip: Option<String>,
    pub language: Option<String>,
    pub country: Option<String>,
    pub created_at: Option<i64>,
}

/// What a successful signin returns.
#[derive(Debug, Clone)]
pub struct SigninData {
    pub token: String,
    pub token_type: String,
    pub user: User,
}

pub open spec fn fill_text(mine: String, theirs: String) -> String {
    if mine@.len() == 0 {
        theirs
    } else {
        mine
    }
}

pub open spec fn fill_opt<T>(mine: Option<T>, theirs: Option<T>) -> Option<T> {
    if mine is None {
        theirs
    } else {
        mine
    }
}

/// `r` is `a` with every empty field taken from `b`, and no password.
pub open spec fn is_merge(r: User, a: User, b: User) -> bool {
    &&& r.id == fill_text(a.id, b.id)
    &&& r.user_id == fill_text(a.user_id, b.user_id)
    &&& r.email == fill_text(a.email, b.email)
    &&& r.password@.len() == 0
    &&& r.ip == fill_opt(a.ip, b.ip)
    &&& r.language == fill_opt(a.language, b.language)
    &&& r.country == fill_opt(a.country, b.country)
    &&& r.created_at == fill_opt(a.created_at, b.created_at)
}

fn clone_opt(o: &Option<String>) -> (r: Option<String>)
    ensures
        r == *o,
{
    match o {
        Some(s) => Some(s.clone()),
        None => None,
    }
}

fn fill_text_exec(mine: String, theirs: String) -> (r: String)
    ensures
        r == fill_text(mine, theirs),
{
    if mine.as_str().unicode_len() == 0 {
        theirs
    } else {
        mine
    }
}

impl User {
    pub fn new() -> (r: User)
        ensures
            r.id@.len() == 0,
            r.user_id@.len() == 0,
            r.email@.len() == 0,
            r.password@.len() == 0,
            r.ip is None,
            r.language is None,
            r.country is None,
            r.created_at is None,
    {
        User {
            id: String::new(),
            user_id: String::new(),
            email: String::new(),
            password: String::new(),
            ip: None,
            language: None,
            country: None,
            created_at: None,
        }
    }

    /// A field-for-field copy.
    pub fn copy(&self) -> (r: User)
        ensures
            r == *self,
    {
        User {
            id: self.id.clone(),
            user_id: self.user_id.clone(),
            email: self.email.clone(),
            password: self.password.clone(),
            ip: clone_opt(&self.ip),
            language: clone_opt(&self.language),
            country: clone_opt(&self.country),
            created_at: self.created_at,
        }
    }

    /// Fills every empty field of `self` from `user`, clears the password,
    /// and returns a copy of the result.
    ///
    /// Open question: a merge that fills only the first empty field it
    /// meets would leave `user_id` empty after a signin whose `id` is empty.
    /// This one fills every empty field; whether some client expects the
    /// one-field form is not settled.
    pub fn merge_with(&mut self, user: User) -> (r: User)
        ensures
            is_merge(*final(self), *old(self), user),
            r == *final(self),
    {
        let mine = self.copy();
        let merged = User {
            id: fill_text_exec(mine.id, user.id),
            user_id: fill_text_exec(mine.user_id, user.user_id),
            email: fill_text_exec(mine.email, user.email),
            password: String::new(),
            ip: if mine.ip.is_none() {
                user.ip
            } else {
                mine.ip
            },
            language: if mine.language.is_none() {
                user.language
            } else {
                mine.language
            },
            country: if mine.country.is_none() {
                user.country
            } else {
                mine.country
            },
            created_at: if mine.created_at.is_none() {
                user.created_at
            } else {
                mine.created_at
            },
        };
        *self = merged;
        self.copy()
    }
}

/// Relies on `uuid::Uuid::now_v7` and its `to_string`, which writes the
/// hyphenated form of 36 characters: a fresh, time-ordered identifier.
#[verifier::external_body]
fn time_ordered_id() -> (r: String)
    ensures
        r@.len() == 36,
{
    uuid::Uuid::now_v7().to_string()
}

/// `r` is the record that signup stores at time `now` for the submitted
/// `u`: the same account data, an id in UUID text form, an Argon2id hash
/// of the password, and `now` as creation time.
pub open spec fn is_signup_record(r: User, u: User, now: i64) -> bool {
    &&& r.user_id == u.user_id
    &&& r.email == u.email
    &&& r.ip == u.ip
    &&& r.language == u.language
    &&& r.country == u.country
    &&& r.id@.len() == 36
    &&& verify_outcome(r.password@, u.password@) == Ok::<bool, PasswordError>(true)
    &&& has_argon2id_prefix(r.password@)
    &&& (!has_argon2id_prefix(u.password@) ==> r.password@ != u.password@)
    &&& r.created_at == Some(now)
}

/// An envelope that reports `e` with the message "error" and no payload.
pub open spec fn is_error<T>(r: Envelope<T>, e: ApiError) -> bool {
    &&& r.code == status_of(e)
    &&& r.message@ == "error"@
    &&& r.data is None
    &&& r.error is Some
}

/// What signup at time `now` yields for the outcome of reading the body.
pub open spec fn signup_outcome(r: Result<User, Envelope<()>>, parsed: Result<User, String>, now: i64) -> bool {
    match parsed {
        Err(text) => r is Err && is_error(r->Err_0, ApiError::BadRequest) && r->Err_0.error
            == Some(text),
        Ok(u) => match r {
            Ok(rec) => is_signup_record(rec, u, now),
            Err(env) => is_error(env, ApiError::InternalError),
        },
    }
}

/// Signup at time `now`, given the outcome of reading the request body as
/// a user: a body that did not read is a bad request; else the record to
/// store under the email, or an internal error when the password could not
/// be hashed.
pub fn signup_at(parsed: Result<User, String>, now: i64) -> (r: Result<User, Envelope<()>>)
    ensures
        signup_outcome(r, parsed, now),
{
    let user = match parsed {
        Ok(u) => u,
        Err(text) => {
            return Err(error_response(ApiError::BadRequest, text));
        },
    };
    let hashed = match hash_password(user.password.as_str()) {
        Ok(h) => h,
        Err(_) => {
            return Err(
                error_response(ApiError::InternalError, "failed to hash password".to_string()),
            );
        },
    };
    let id = time_ordered_id();
    Ok(
        User {
            id,
            user_id: user.user_id,
            email: user.email,
            password: hashed,
            ip: user.ip,
            language: user.language,
            country: user.country,
            created_at: Some(now),
        },
    )
}

/// Signup at the current time.
pub fn signup(parsed: Result<User, String>) -> (r: Result<User, Envelope<()>>)
    ensures
        exists|now: i64| 0 <= now <= 9_000_000_000_000 && #[trigger] signup_outcome(r, parsed, now),
{
    let now = now_timestamp();
    let r = signup_at(parsed, now);
    assert(signup_outcome(r, parsed, now));
    r
}

/// The response once the store has answered the write of a signup record.
pub fn signup_response(stored: Result<(), String>) -> (r: Envelope<()>)
    ensures
        stored is Ok ==> r.code == STATUS_OK && r.message@ == "success"@ && r.data is None
            && r.error is None,
        stored is Err ==> is_error(r, ApiError::InternalError) && r.error == Some(stored->Err_0),
{
    match stored {
        Ok(()) => response_handler(STATUS_OK, "success".to_string(), None, None),
        Err(e) => error_response(ApiError::InternalError, e),
    }
}

/// Reads the submitted credentials of a signin: a body that did not read
/// is a bad request carrying the reader's message.
pub fn signin_request(parsed: Result<User, String>) -> (r: Result<User, Envelope<SigninData>>)
    ensures
        parsed is Ok ==> r == Ok::<User, Envelope<SigninData>>(parsed->Ok_0),
        parsed is Err ==> r is Err && is_error(r->Err_0, ApiError::BadRequest) && r->Err_0.error
            == Some(parsed->Err_0),
{
    match parsed {
        Ok(u) => Ok(u),
        Err(text) => Err(error_response(ApiError::BadRequest, text)),
    }
}

/// What signin at time `now` under `secret` yields, given the submitted
/// credentials and the outcome of looking up the stored user by email.
pub open spec fn signin_outcome(
    r: Envelope<SigninData>,
    submitted: User,
    lookup: Result<Option<User>, String>,
    secret: Seq<u8>,
    now: i64,
) -> bool {
    match lookup {
        Err(e) => is_error(r, ApiError::InternalError) && r.error->Some_0@ == "not found user, "@
            + e@,
        Ok(None) => is_error(r, ApiError::Unauthorized) && r.error->Some_0@ == "not found user"@,
        Ok(Some(stored)) => match verify_outcome(stored.password@, submitted.password@) {
            Err(_) => is_error(r, ApiError::InternalError),
            Ok(false) => is_error(r, ApiError::Unauthorized) && r.error->Some_0@
                == "wrong password"@,
            Ok(true) => {
                let d = r.data->Some_0;
                let exp = (now + TOKEN_TTL_SECS) as i64;
                &&& r.code == STATUS_OK
                &&& r.message@ == "success"@
                &&& r.error is None
                &&& r.data is Some
                &&& d.token_type@ == "bearer"@
                &&& is_merge(d.user, submitted, stored)
                &&& d.token@.len() > 0
                &&& d.token@ == signed_token(d.user.user_id@, d.user.email@, exp, secret)
                &&& minted(d.token@, d.user.user_id@, d.user.email@, exp, secret)
            },
        },
    }
}

/// Signin at time `now`: a failed lookup is an internal error; an unknown
/// email or a wrong password is unauthorized; a malformed stored hash is an
/// internal error; else a bearer token for the stored identity that expires
/// `TOKEN_TTL_SECS` after `now`, and the merged user without its password.
pub fn signin_at(submitted: User, lookup: Result<Option<User>, String>, keys: &Keys, now: i64) -> (r:
    Envelope<SigninData>)
    requires
        now <= i64::MAX - TOKEN_TTL_SECS,
    ensures
        signin_outcome(r, submitted, lookup, keys.secret@, now),
{
    let stored = match lookup {
        Ok(Some(u)) => u,
        Ok(None) => {
            return error_response(ApiError::Unauthorized, "not found user".to_string());
        },
        Err(e) => {
            let text = "not found user, ".to_string().concat(e.as_str());
            return error_response(ApiError::InternalError, text);
        },
    };
    match verify_password(stored.password.as_str(), submitted.password.as_str()) {
        Ok(true) => {},
        Ok(false) => {
            return error_response(ApiError::Unauthorized, "wrong password".to_string());
        },
        Err(_) => {
            return error_response(ApiError::InternalError, "invalid password hash".to_string());
        },
    }
    let mut user = submitted;
    let merged = user.merge_with(stored);
    let claims = Claims::issued_at(merged.user_id.clone(), merged.email.clone(), now);
    match claims.to_token(keys) {
        Ok(token) => {
            let data = SigninData { token, token_type: "bearer".to_string(), user: merged };
            response_handler(STATUS_OK, "success".to_string(), Some(data), None)
        },
        Err(e) => error_response(ApiError::InternalError, e),
    }
}

/// Signin at the current time.
pub fn signin(submitted: User, lookup: Result<Option<User>, String>, keys: &Keys) -> (r: Envelope<
    SigninData,
>)
    ensures
        exists|now: i64|
            0 <= now <= 9_000_000_000_000 && #[trigger] signin_outcome(
                r,
                submitted,
                lookup,
                keys.secret@,
                now,
            ),
{
    let now = now_timestamp();
    let r = signin_at(submitted, lookup, keys, now);
    assert(signin_outcome(r, submitted, lookup, keys.secret@, now));
    r
}

} // verus!
