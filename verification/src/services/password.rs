//! Password hashing with Argon2.

use vstd::prelude::*;
use argon2::PasswordHasher;
use argon2::PasswordVerifier;

verus! {

/// `argon2::password_hash::Error`: why a password was not hashed. Carried
/// through, never read.
#[verifier::external_type_specification]
#[verifier::external_body]
pub struct ExPasswordHashError(argon2::password_hash::Error);

/// What checking a password against an encoded hash comes to.
#[derive(Debug, Clone, Copy, PartialEq, Eq, Structural)]
pub enum PasswordCheck {
    /// The hash is the password's.
    Match,
    /// The hash is not the password's.
    Mismatch,
    /// The encoded hash cannot be read, or names what Argon2 cannot compute.
    Unusable,
}

/// What checking the password, given as bytes, against the encoded hash
/// comes to. The encoded hash carries algorithm, parameters and salt, so the
/// answer depends on the two arguments alone.
pub uninterp spec fn argon2_check(password: Seq<u8>, encoded: Seq<char>) -> PasswordCheck;

/// Whether an encoded hash can be read as a PHC string, and if so whether
/// it carries a salt and whether it carries the hash itself.
pub uninterp spec fn phc_parts(encoded: Seq<char>) -> Option<(bool, bool)>;

/// `PasswordHash::new` on the encoded hash: whether it parses, and whether
/// the fields `salt` and `hash` of what was parsed are there.
#[verifier::external_body]
pub(crate) fn phc_shape(encoded: &str) -> (r: Option<(bool, bool)>)
    ensures
        r == phc_parts(encoded@),
{
    argon2::PasswordHash::new(encoded).ok().map(|hash| (hash.salt.is_some(), hash.hash.is_some()))
}

/// `hash_password` of `argon2::Argon2`, with the default parameters and a
/// salt that `SaltString::generate` draws from the operating system, written
/// as a PHC string. The salt is random, so of the hash it is only said that
/// it is complete and the password's: it carries salt and hash, and checking
/// the same password against it succeeds.
#[verifier::external_body]
pub(crate) fn argon2_hash(password: &[u8]) -> (r: Result<String, argon2::password_hash::Error>)
    ensures
        r matches Ok(encoded) ==> argon2_check(password@, encoded@) == PasswordCheck::Match
            && phc_parts(encoded@) == Some((true, true)),
{
    let salt = argon2::password_hash::SaltString::generate(
        &mut argon2::password_hash::rand_core::OsRng,
    );
    argon2::Argon2::default().hash_password(password, &salt).map(|hash| hash.to_string())
}

/// `PasswordHash::new` on the encoded hash, then `verify_password` of
/// `argon2::Argon2`. `Mismatch` is the library's `Error::Password`;
/// `Unusable` is a hash that does not parse, or any other error.
#[verifier::external_body]
pub(crate) fn argon2_verify(password: &[u8], encoded: &str) -> (r: PasswordCheck)
    ensures
        r == argon2_check(password@, encoded@),
{
    let parsed = match argon2::PasswordHash::new(encoded) {
        Ok(parsed) => parsed,
        Err(_) => return PasswordCheck::Unusable,
    };
    match argon2::Argon2::default().verify_password(password, &parsed) {
        Ok(()) => PasswordCheck::Match,
        Err(argon2::password_hash::Error::Password) => PasswordCheck::Mismatch,
        Err(_) => PasswordCheck::Unusable,
    }
}

} // verus!
