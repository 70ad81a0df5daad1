//! Password hashing and checking, done by the `bcrypt` crate.

use vstd::prelude::*;

verus! {

/// `bcrypt::BcryptError`, carried through as it is.
#[verifier::external_type_specification]
#[verifier::external_body]
pub struct ExBcryptError(bcrypt::BcryptError);

/// What `bcrypt::verify(password, hash)` returns: `Some(b)` for `Ok(b)`,
/// `None` for an error (a string that is no bcrypt hash).
pub uninterp spec fn bcrypt_verify_outcome(password: Seq<char>, hash: Seq<char>) -> Option<bool>;

/// `bcrypt::hash(password, bcrypt::DEFAULT_COST)`. The salt is drawn from
/// the operating system's randomness, so the hash is not a function of the
/// password; what the source guarantees is that a hash it returns verifies
/// against that same password (`verify` re-derives it with the stored cost
/// and salt), and that it is written `$2b$12$` followed by 22 characters of
/// salt and 31 of hash. It fails only when the randomness cannot be read,
/// which is left unsaid.
#[verifier::external_body]
pub(crate) fn hash_password(password: &str) -> (r: Result<String, bcrypt::BcryptError>)
    ensures
        r matches Ok(h) ==> bcrypt_verify_outcome(password@, h@) == Some(true),
        r matches Ok(h) ==> h@.len() == 60 && h@.take(7) == "$2b$12$"@,
{
    bcrypt::hash(password, bcrypt::DEFAULT_COST)
}

/// `bcrypt::verify(password, hash)`: a deterministic function of its two
/// arguments, named by `bcrypt_verify_outcome`.
#[verifier::external_body]
pub(crate) fn verify_password(password: &str, hash: &str) -> (r: Result<bool, bcrypt::BcryptError>)
    ensures
        bcrypt_verify_outcome(password@, hash@) == (match r {
            Ok(b) => Some(b),
            Err(_) => None,
        }),
{
    bcrypt::verify(password, hash)
}

/// `verify(password, hash).unwrap_or(false)`: a malformed hash counts as a
/// mismatch.
pub open spec fn password_verified(outcome: Option<bool>) -> bool {
    outcome == Some(true)
}

} // verus!
