//! The password hasher: salted, adaptive hashing by bcrypt at its default
//! cost, and verification of a password against a stored hash.

use bcrypt::BcryptError;
use vstd::prelude::*;

verus! {

/// The error type of the bcrypt crate.
#[verifier::external_type_specification]
#[verifier::external_body]
pub struct ExBcryptError(BcryptError);

/// The answer of `bcrypt::verify` for a password and a hash string:
/// `Some(true)` where the password fits the hash, `Some(false)` where it does
/// not, `None` where the call fails because the string is no bcrypt hash.
pub uninterp spec fn bcrypt_verify(password: Seq<char>, hash: Seq<char>) -> Option<bool>;

/// The hasher accepts `password` for `hash`. A string that is no bcrypt hash
/// accepts nothing.
pub open spec fn accepts(password: Seq<char>, hash: Seq<char>) -> bool {
    bcrypt_verify(password, hash) == Some(true)
}

/// Opens every hash that the hasher makes: it names bcrypt's version 2b and
/// the cost 12, bcrypt's default, at which every password is hashed.
pub const HASH_OPENING: &'static str = "$2b$12$";

/// `hash` has the form of the hashes that the hasher makes: sixty characters,
/// the first seven of them [`HASH_OPENING`]; the salt and the digest follow.
pub open spec fn is_fresh_hash(hash: Seq<char>) -> bool {
    &&& hash.len() == 60
    &&& hash.subrange(0, 7) == HASH_OPENING@
}

/// The hashing backend failed; no hash was produced.
#[derive(Clone, Copy, Debug, PartialEq, Eq, Structural)]
pub struct HashFailure;

/// Calls `bcrypt::hash` with the crate's default cost. The salt is drawn at
/// random on every call, so two calls on one password differ, and the call
/// fails where the operating system gives no random bytes. Two things are
/// claimed of every hash that comes back. `bcrypt::verify` accepts the
/// password for it: verification parses the cost and the salt back out of the
/// string and repeats the same computation on the same password bytes. And it
/// is written as bcrypt writes a hash of version 2b at cost 12: `$2b$12$`,
/// then the 16 bytes of the salt in 22 characters and the 23 bytes of the
/// digest in 31.
#[verifier::external_body]
fn bcrypt_hash(password: &str) -> (hashed: Result<String, BcryptError>)
    ensures
        hashed matches Ok(hash) ==> bcrypt_verify(password@, hash@) == Some(true),
        hashed matches Ok(hash) ==> is_fresh_hash(hash@),
{
    bcrypt::hash(password, bcrypt::DEFAULT_COST)
}

/// Calls `bcrypt::verify`. Its answer depends on the password and the hash
/// string alone and is the one that [`bcrypt_verify`] names.
#[verifier::external_body]
fn bcrypt_check(password: &str, hash: &str) -> (checked: Result<bool, BcryptError>)
    ensures
        match checked {
            Ok(fits) => bcrypt_verify(password@, hash@) == Some(fits),
            Err(_) => bcrypt_verify(password@, hash@) is None,
        },
{
    bcrypt::verify(password, hash)
}

/// What the hasher reports for an answer of the hashing backend: the hash, or
/// that hashing failed.
pub fn hashed_or_failure(raw: Result<String, BcryptError>) -> (hashed: Result<String, HashFailure>)
    ensures
        match raw {
            Ok(hash) => hashed == Ok::<String, HashFailure>(hash),
            Err(_) => hashed == Err::<String, HashFailure>(HashFailure),
        },
{
    match raw {
        Ok(hash) => Ok(hash),
        Err(_) => Err(HashFailure),
    }
}

/// What the hasher reports for an answer of the verifying backend: only a
/// plain "yes" accepts; a "no" and a failure both deny.
pub fn accepted(raw: Result<bool, BcryptError>) -> (fits: bool)
    ensures
        fits == (raw == Ok::<bool, BcryptError>(true)),
{
    match raw {
        Ok(fits) => fits,
        Err(_) => false,
    }
}

/// Hashes `plaintext` under a fresh random salt, at bcrypt's default cost.
/// Whether a hash comes back is for the source of the salt to decide. Every
/// hash that does is one that [`verify`] accepts for `plaintext`, and it is
/// written as [`is_fresh_hash`] says.
pub fn hash(plaintext: &str) -> (hashed: Result<String, HashFailure>)
    ensures
        hashed matches Ok(hash) ==> accepts(plaintext@, hash@),
        hashed matches Ok(hash) ==> is_fresh_hash(hash@),
{
    hashed_or_failure(bcrypt_hash(plaintext))
}

/// Whether `plaintext` fits the stored `hash`. A malformed hash denies.
pub fn verify(plaintext: &str, hash: &str) -> (fits: bool)
    ensures
        fits == accepts(plaintext@, hash@),
{
    accepted(bcrypt_check(plaintext, hash))
}

} // verus!
