//! Credential hashing.
//!
//! Passwords are stored only as bcrypt hashes, computed at a fixed cost with
//! a fresh random salt, and are checked against a stored hash by bcrypt's own
//! constant-time comparison.

use vstd::prelude::*;

verus! {

/// Length of a bcrypt hash string.
pub const HASH_LEN: usize = 60;

/// Hashing failed: the primitive could not produce a hash.
#[derive(Clone, Copy, Debug, PartialEq, Eq)]
pub struct HashingError;

/// `bcrypt::BcryptError`, carried as it comes and never looked into.
#[verifier::external_type_specification]
#[verifier::external_body]
pub struct ExBcryptError(bcrypt::BcryptError);

/// What `bcrypt::verify` answers for a password and a hash string:
/// `Some(true)` where the hash was made from the password, `Some(false)`
/// where it was made from another, `None` where the string is no hash.
pub uninterp spec fn bcrypt_verdict(password: Seq<char>, hash: Seq<char>) -> Option<bool>;

/// The outward shape of a hash made here: sixty characters that begin with
/// `$2b$12$`, which name bcrypt's version 2b and the cost factor 12.
pub open spec fn is_hash_shaped(text: Seq<char>) -> bool {
    &&& text.len() == HASH_LEN
    &&& text[0] == '$'
    &&& text[1] == '2'
    &&& text[2] == 'b'
    &&& text[3] == '$'
    &&& text[4] == '1'
    &&& text[5] == '2'
    &&& text[6] == '$'
}

/// True where `hash` is a stored form of `password`.
pub open spec fn password_matches(password: Seq<char>, hash: Seq<char>) -> bool {
    bcrypt_verdict(password, hash) == Some(true)
}

/// Calls `bcrypt::hash(password, bcrypt::DEFAULT_COST)`.
///
/// The salt is random, so nothing fixes the hash itself. Trusted of every
/// hash that comes back: it is a version 2b hash string of cost 12, the
/// crate's default, and `bcrypt::verify` accepts the same password against
/// it.
#[verifier::external_body]
fn bcrypt_hash(password: &str) -> (res: Result<String, bcrypt::BcryptError>)
    ensures
        res matches Ok(hash) ==> is_hash_shaped(hash@) && bcrypt_verdict(password@, hash@) == Some(
            true,
        ),
{
    bcrypt::hash(password, bcrypt::DEFAULT_COST)
}

/// Calls `bcrypt::verify(password, hash)`.
///
/// Trusted: the answer is a function of the two texts alone.
#[verifier::external_body]
fn bcrypt_verify(password: &str, hash: &str) -> (res: Result<bool, bcrypt::BcryptError>)
    ensures
        match res {
            Ok(verdict) => bcrypt_verdict(password@, hash@) == Some(verdict),
            Err(_) => bcrypt_verdict(password@, hash@) is None,
        },
{
    bcrypt::verify(password, hash)
}

/// The hash that an attempt produced, as text, or `None` where it failed.
pub open spec fn hash_text(hashed: Result<String, HashingError>) -> Option<Seq<char>> {
    match hashed {
        Ok(hash) => Some(hash@),
        Err(_) => None,
    }
}

/// Hashes `password` with a fresh salt at bcrypt's default cost.
///
/// `verify_password` accepts the password against every hash that comes
/// back, and such a hash is not the password in the clear: it differs from
/// every password that is not itself shaped like a hash.
pub fn hash_password(password: &str) -> (res: Result<String, HashingError>)
    ensures
        res matches Ok(hash) ==> is_hash_shaped(hash@) && password_matches(password@, hash@),
        res matches Ok(hash) ==> (!is_hash_shaped(password@) ==> hash@ != password@),
{
    hashing_outcome(bcrypt_hash(password))
}

/// Checks `password` against a stored hash. A string that is no bcrypt hash
/// matches nothing.
pub fn verify_password(password: &str, hash: &str) -> (ok: bool)
    ensures
        ok == password_matches(password@, hash@),
{
    match bcrypt_verify(password, hash) {
        Ok(verdict) => verdict,
        Err(_) => false,
    }
}

/// What a hashing attempt amounts to: the hash exactly as the primitive
/// returned it, or `HashingError` in place of whatever the primitive
/// complained of.
pub fn hashing_outcome(raw: Result<String, bcrypt::BcryptError>) -> (res: Result<
    String,
    HashingError,
>)
    ensures
        raw matches Ok(hash) ==> (res matches Ok(kept) && kept == hash),
        raw is Err ==> res is Err,
{
    match raw {
        Ok(hash) => Ok(hash),
        Err(_) => Err(HashingError),
    }
}

} // verus!
