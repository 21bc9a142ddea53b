//! One-way hashing of passwords and their verification.

use vstd::prelude::*;
use std::str::FromStr;
use crate::endpoints::auth::AuthenticationError;

verus! {

/// Why bcrypt failed. It is carried along; only its text is ever read.
#[verifier::external_type_specification]
#[verifier::external_body]
pub struct ExBcryptError(bcrypt::BcryptError);

/// The work factor that passwords are hashed with unless another is chosen.
pub const DEFAULT_COST: u32 = 12;

/// What checking `plaintext` against `digest` gives: whether they match, or
/// `None` where `digest` is not a digest that can be checked.
pub uninterp spec fn password_check(plaintext: Seq<char>, digest: Seq<char>) -> Option<bool>;

/// The work factor that `digest` was made with, as bcrypt reads it back from
/// the digest, or `None` where `digest` does not have the parts of one.
pub uninterp spec fn digest_cost(digest: Seq<char>) -> Option<u32>;

/// Calls `bcrypt::verify`. The contract names what it returns: whether the
/// password matches the digest, or an error, as a function of the two texts
/// alone.
#[verifier::external_body]
fn bcrypt_verify(plaintext: &str, digest: &str) -> (r: Result<bool, bcrypt::BcryptError>)
    ensures
        r is Ok <==> password_check(plaintext@, digest@) is Some,
        r matches Ok(matched) ==> password_check(plaintext@, digest@) == Some(matched),
{
    bcrypt::verify(plaintext, digest)
}

/// Calls `bcrypt::hash`, which salts at random. Whatever digest comes back
/// is one that `bcrypt::verify` matches with the same password: it holds
/// the cost and the salt, and verification hashes the password again with
/// both. The cost that it holds is the one that was asked for. A cost
/// outside 4..=31 is an error.
#[verifier::external_body]
fn bcrypt_hash(plaintext: &str, cost: u32) -> (r: Result<String, bcrypt::BcryptError>)
    ensures
        r matches Ok(digest) ==> password_check(plaintext@, digest@) == Some(true),
        r matches Ok(digest) ==> digest_cost(digest@) == Some(cost),
        !(4 <= cost <= 31) ==> r is Err,
{
    bcrypt::hash(plaintext, cost)
}

/// Calls `HashParts::from_str` of bcrypt and, on the parts, `get_cost`. The
/// contract names what comes back: the cost written in the digest, or
/// nothing where the text does not split into the parts of a digest.
#[verifier::external_body]
fn bcrypt_cost(digest: &str) -> (r: Option<u32>)
    ensures
        r == digest_cost(digest@),
{
    match bcrypt::HashParts::from_str(digest) {
        Ok(parts) => Some(parts.get_cost()),
        Err(_) => None,
    }
}

/// Calls `to_string` of a `BcryptError`: the text that describes it.
#[verifier::external_body]
pub(crate) fn bcrypt_error_text(err: &bcrypt::BcryptError) -> String {
    err.to_string()
}

/// Hashes a password with the work factor `cost`. Every digest that comes
/// back verifies against the same password and was made with `cost`. A cost
/// outside 4..=31 is an error.
pub fn hash_password(plaintext: &str, cost: u32) -> (r: Result<String, AuthenticationError>)
    ensures
        match r {
            Ok(digest) => password_check(plaintext@, digest@) == Some(true) && digest_cost(digest@)
                == Some(cost),
            Err(e) => e is Encryption,
        },
        !(4 <= cost <= 31) ==> r is Err,
{
    match bcrypt_hash(plaintext, cost) {
        Ok(digest) => Ok(digest),
        Err(err) => Err(AuthenticationError::Encryption(err)),
    }
}

/// Whether `plaintext` is the password that `digest` was made from. A
/// digest that cannot be checked is an encryption error, never `false`.
/// The digests are compared by bcrypt, which takes the same time wherever
/// they differ.
pub fn verify_password(plaintext: &str, digest: &str) -> (r: Result<bool, AuthenticationError>)
    ensures
        match password_check(plaintext@, digest@) {
            Some(matched) => r matches Ok(b) && b == matched,
            None => r matches Err(e) && e is Encryption,
        },
{
    match bcrypt_verify(plaintext, digest) {
        Ok(matched) => Ok(matched),
        Err(err) => Err(AuthenticationError::Encryption(err)),
    }
}

/// The work factor that `digest` was made with, or `None` where the text
/// does not have the parts of a digest.
pub fn work_factor(digest: &str) -> (r: Option<u32>)
    ensures
        r == digest_cost(digest@),
{
    bcrypt_cost(digest)
}

} // verus!
