use argon2::password_hash::rand_core::OsRng;
use argon2::password_hash::SaltString;
use argon2::{Argon2, PasswordHasher, PasswordVerifier};
use vstd::prelude::*;

verus! {

/// Why a password could not be hashed or checked.
#[derive(Debug, Clone, Copy, PartialEq, Eq, Structural)]
pub enum PasswordError {
    /// The key-derivation function refused to hash the password.
    HashFailed,
    /// The stored hash is not a well-formed PHC string.
    InvalidHashFormat,
}

/// Whether `h` is a well-formed PHC hash string.
pub uninterp spec fn hash_parses(h: Seq<char>) -> bool;

/// Whether re-deriving `p` with the parameters and salt embedded in `h`
/// reproduces the digest of `h`.
pub uninterp spec fn password_verifies(h: Seq<char>, p: Seq<char>) -> bool;

/// Relies on `argon2::PasswordHash::new`: whether a string parses as a PHC
/// hash depends on the string alone.
#[verifier::external_body]
fn phc_well_formed(h: &str) -> (r: bool)
    ensures
        r == hash_parses(h@),
{
    argon2::PasswordHash::new(h).is_ok()
}

/// Relies on `PasswordVerifier::verify_password` of `Argon2::default()`:
/// the outcome depends on the stored hash and the candidate alone.
#[verifier::external_body]
fn argon2_verify(h: &str, p: &str) -> (r: bool)
    requires
        hash_parses(h@),
    ensures
        r == password_verifies(h@, p@),
{
    match argon2::PasswordHash::new(h) {
        Ok(parsed) => Argon2::default().verify_password(p.as_bytes(), &parsed).is_ok(),
        Err(_) => false,
    }
}

/// The start of every PHC string that Argon2id writes.
pub open spec fn argon2id_prefix() -> Seq<char> {
    "$argon2id$"@
}

pub open spec fn has_argon2id_prefix(h: Seq<char>) -> bool {
    h.len() >= argon2id_prefix().len() && h.subrange(0, argon2id_prefix().len() as int)
        == argon2id_prefix()
}

/// Relies on `PasswordHasher::hash_password` of `Argon2::default()` with a
/// fresh `SaltString` drawn from `OsRng`: a hash it returns is an Argon2id
/// PHC string (`$argon2id$v=19$...`, the default algorithm) that verifies
/// against the same password.
#[verifier::external_body]
fn argon2_hash(p: &str) -> (r: Option<String>)
    ensures
        r is Some ==> hash_parses(r->Some_0@) && password_verifies(r->Some_0@, p@),
        r is Some ==> has_argon2id_prefix(r->Some_0@),
{
    let salt = SaltString::generate(&mut OsRng);
    Argon2::default().hash_password(p.as_bytes(), &salt).ok().map(|h| h.to_string())
}

/// What checking `candidate` against the stored hash `stored` yields.
pub open spec fn verify_outcome(stored: Seq<char>, candidate: Seq<char>) -> Result<
    bool,
    PasswordError,
> {
    if hash_parses(stored) {
        Ok(password_verifies(stored, candidate))
    } else {
        Err(PasswordError::InvalidHashFormat)
    }
}

/// Hashes `password` with a fresh random salt into an Argon2id PHC string.
/// A hash that comes back verifies against the same password, and differs
/// from it unless the password itself looks like such a string.
pub fn hash_password(password: &str) -> (r: Result<String, PasswordError>)
    ensures
        r is Ok ==> verify_outcome(r->Ok_0@, password@) == Ok::<bool, PasswordError>(true),
        r is Ok ==> has_argon2id_prefix(r->Ok_0@),
        r is Ok && !has_argon2id_prefix(password@) ==> r->Ok_0@ != password@,
        r is Err ==> r->Err_0 == PasswordError::HashFailed,
{
    match argon2_hash(password) {
        Some(h) => Ok(h),
        None => Err(PasswordError::HashFailed),
    }
}

/// Checks `password` against the stored hash; a malformed stored hash is an
/// error of its own, distinct from a wrong password.
pub fn verify_password(hashed_password: &str, password: &str) -> (r: Result<bool, PasswordError>)
    ensures
        r == verify_outcome(hashed_password@, password@),
{
    if !phc_well_formed(hashed_password) {
        return Err(PasswordError::InvalidHashFormat);
    }
    Ok(argon2_verify(hashed_password, password))
}

} // verus!
