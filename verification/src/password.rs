//! One-way password hashing and verification, built on the bcrypt crate.
//!
//! The outcome of a bcrypt verification is a function of the plaintext and
//! the encoded hash alone, so it is given a name, `bcrypt_check`, and the
//! contracts of the hashing and verification functions are stated over it.

use vstd::prelude::*;

verus! {

/// What `bcrypt::verify(plain, hashed)` returns: `Some(b)` when verification
/// completes with answer `b`, `None` when the hash is malformed and bcrypt
/// reports an error. The answer depends on the two arguments alone: bcrypt
/// recomputes the hash of `plain` from the cost and salt embedded in
/// `hashed` and compares.
pub uninterp spec fn bcrypt_check(plain: Seq<char>, hashed: Seq<char>) -> Option<bool>;

/// The plaintext is accepted against the encoded hash.
pub open spec fn bcrypt_matches(plain: Seq<char>, hashed: Seq<char>) -> bool {
    bcrypt_check(plain, hashed) == Some(true)
}

#[verifier::external_type_specification]
#[verifier::external_body]
pub struct ExBcryptError(bcrypt::BcryptError);

/// Relies on bcrypt::hash with the crate's default cost: a hash it returns
/// embeds the salt it drew, and bcrypt::verify accepts the same plaintext
/// against it. The encoded form is always 60 ASCII characters beginning
/// with '$' (version, cost, salt and digest), so it is never the plaintext
/// of a password of any other length.
#[verifier::external_body]
fn bcrypt_hash(plain: &str) -> (r: Result<String, bcrypt::BcryptError>)
    ensures
        r matches Ok(h) ==> bcrypt_check(plain@, h@) == Some(true) && h@.len() == 60 && h@[0]
            == '$',
{
    bcrypt::hash(plain, bcrypt::DEFAULT_COST)
}

/// Relies on bcrypt::verify: it answers whether the plaintext matches the
/// hash, and errs exactly when the hash is malformed.
#[verifier::external_body]
fn bcrypt_verify(plain: &str, hashed: &str) -> (r: Result<bool, bcrypt::BcryptError>)
    ensures
        r matches Ok(b) ==> bcrypt_check(plain@, hashed@) == Some(b),
        r matches Err(_) ==> bcrypt_check(plain@, hashed@) is None,
{
    bcrypt::verify(plain, hashed)
}

/// Hashes a plaintext password with a fresh per-call salt; the result is a
/// 60-character '$'-prefixed bcrypt hash, never the plaintext itself
/// unless the plaintext already had that exact shape.
pub fn hash_password(plain: &str) -> (r: Result<String, bcrypt::BcryptError>)
    ensures
        r matches Ok(h) ==> bcrypt_matches(plain@, h@) && h@.len() == 60 && h@[0] == '$',
{
    bcrypt_hash(plain)
}

/// Checks a plaintext password against an encoded hash. An error means the
/// hash is malformed; callers must treat it as a failed match, never panic.
pub fn verify_password(plain: &str, hashed: &str) -> (r: Result<bool, bcrypt::BcryptError>)
    ensures
        r matches Ok(b) ==> b == bcrypt_matches(plain@, hashed@),
        r matches Err(_) ==> bcrypt_check(plain@, hashed@) is None,
{
    match bcrypt_verify(plain, hashed) {
        Ok(b) => Ok(b),
        Err(e) => Err(e),
    }
}

} // verus!
