//! Password hashing and verification with argon2.

use vstd::prelude::*;
use vstd::string::*;

use argon2::password_hash::{rand_core::OsRng, PasswordHasher, SaltString};
use argon2::PasswordVerifier;

use crate::error::ApiError;
use crate::fields::{Password, PasswordHash};

verus! {

/// Longest password, in bytes, that argon2 accepts.
pub const MAX_PASSWORD_BYTES: usize = 0xFFFF_FFFF;

/// Whether `argon2::password_hash::PasswordHash::new` parses the string.
pub uninterp spec fn argon2_hash_parses(hash: Seq<char>) -> bool;

/// Whether argon2's `verify_password` accepts the password against the parsed hash.
pub uninterp spec fn argon2_matches(password: Seq<char>, hash: Seq<char>) -> bool;

/// Hashes `password` with `argon2::Argon2::default().hash_password` under a fresh
/// `SaltString::generate(&mut OsRng)` salt and renders the PHC string.
/// Trusted: the salt is random, so nothing names the result; what is stated is
/// what argon2 documents: the string parses as a password hash and
/// `verify_password` accepts the same password against it. Hashing only fails
/// on passwords longer than `MAX_PASSWORD_BYTES`, which `requires` leaves out.
#[verifier::external_body]
fn argon2_hash_fresh(password: &str) -> (r: String)
    requires
        password.spec_bytes().len() <= MAX_PASSWORD_BYTES,
    ensures
        argon2_hash_parses(r@),
        argon2_matches(password@, r@),
{
    let salt = SaltString::generate(&mut OsRng);
    argon2::Argon2::default().hash_password(password.as_bytes(), &salt).unwrap().to_string()
}

/// Parses `hash` with `argon2::password_hash::PasswordHash::new` and, when it
/// parses, checks `password` against it with `Argon2::default().verify_password`.
/// Trusted: `None` exactly when the hash does not parse, otherwise whether the
/// password matches, as the two names state.
#[verifier::external_body]
fn argon2_check(password: &str, hash: &str) -> (r: Option<bool>)
    ensures
        r is None <==> !argon2_hash_parses(hash@),
        r matches Some(b) ==> b == argon2_matches(password@, hash@),
{
    match argon2::password_hash::PasswordHash::new(hash) {
        Ok(parsed) => Some(
            argon2::Argon2::default().verify_password(password.as_bytes(), &parsed).is_ok(),
        ),
        Err(_) => None,
    }
}

impl Password {
    /// Hashes the password with argon2 under a fresh random salt.
    pub fn hash(&self) -> (r: PasswordHash)
        requires
            vstd::utf8::encode_utf8(self@).len() <= MAX_PASSWORD_BYTES,
        ensures
            is_hash_of(r@, self@),
    {
        PasswordHash(argon2_hash_fresh(self.0.as_str()))
    }

    /// Checks the password against a stored hash: `Ok` when it matches,
    /// `UnauthorizedIncorrectPassword` when it does not.
    pub fn hash_and_verify(&self, other_hash: &PasswordHash) -> (r: Result<(), ApiError>)
        requires
            argon2_hash_parses(other_hash@),
        ensures
            r is Ok <==> argon2_matches(self@, other_hash@),
            r matches Err(e) ==> e == ApiError::UnauthorizedIncorrectPassword,
    {
        match argon2_check(self.0.as_str(), other_hash.0.as_str()) {
            Some(true) => Ok(()),
            _ => Err(ApiError::UnauthorizedIncorrectPassword),
        }
    }

    /// Like `hash_and_verify`, but first checks that the stored hash parses;
    /// `None` when it does not.
    pub fn try_hash_and_verify(&self, other_hash: &PasswordHash) -> (r: Option<Result<(), ApiError>>)
        ensures
            r is None <==> !argon2_hash_parses(other_hash@),
            r matches Some(Ok(())) ==> argon2_matches(self@, other_hash@),
            r matches Some(Err(e)) ==> !argon2_matches(self@, other_hash@) && e
                == ApiError::UnauthorizedIncorrectPassword,
    {
        match argon2_check(self.0.as_str(), other_hash.0.as_str()) {
            None => None,
            Some(_) => Some(self.hash_and_verify(other_hash)),
        }
    }

    /// Whether the password matches the stored hash; `false` for a hash that
    /// does not parse.
    pub fn matches_hash(&self, hash: &PasswordHash) -> (b: bool)
        ensures
            b == (argon2_hash_parses(hash@) && argon2_matches(self@, hash@)),
    {
        match argon2_check(self.0.as_str(), hash.0.as_str()) {
            Some(b) => b,
            None => false,
        }
    }
}

/// Whether `hash` is an argon2 hash of `password`: it parses and verifies.
pub open spec fn is_hash_of(hash: Seq<char>, password: Seq<char>) -> bool {
    argon2_hash_parses(hash) && argon2_matches(password, hash)
}

} // verus!
