//! Password hashing: Argon2 with a fresh random salt, stored as a PHC string
//! that carries its own salt and parameters.

use argon2::password_hash::{PasswordHash, PasswordHasher, PasswordVerifier, SaltString};
use argon2::Argon2;
use rand_core::OsRng;
use vstd::prelude::*;
use vstd::string::*;
use vstd::utf8::encode_utf8;

verus! {

/// The longest password, in bytes, that Argon2 hashes.
pub const MAX_PASSWORD_BYTES: usize = 0xFFFF_FFFF;

/// Whether `PasswordHash::new` reads `encoded` as a PHC string.
pub uninterp spec fn phc_well_formed(encoded: Seq<char>) -> bool;

/// Whether `Argon2::default().verify_password` accepts `password` against the
/// PHC string `encoded`: the hash recomputed with the salt and parameters that
/// `encoded` carries equals the one it carries.
pub uninterp spec fn argon2_accepts(password: Seq<char>, encoded: Seq<char>) -> bool;

/// Whether `password` is short enough to be hashed.
pub open spec fn hashable(password: Seq<char>) -> bool {
    encode_utf8(password).len() <= MAX_PASSWORD_BYTES
}

/// Whether `encoded` is a stored hash of `password`.
pub open spec fn password_matches(password: Seq<char>, encoded: Seq<char>) -> bool {
    phc_well_formed(encoded) && argon2_accepts(password, encoded)
}

/// `SaltString::generate` and `Argon2::default().hash_password`, written out
/// with `to_string`.
///
/// Trusted: the string that comes back is a PHC string, hence not empty, and
/// verifying the same password against it succeeds. The salt is random, so
/// nothing more is said of the string. Hashing fails only on a password longer
/// than `MAX_PASSWORD_BYTES`, which `requires` leaves out.
#[verifier::external_body]
fn argon2_hash(password: &str) -> (encoded: String)
    requires
        hashable(password@),
    ensures
        phc_well_formed(encoded@),
        argon2_accepts(password@, encoded@),
        encoded@.len() > 0,
{
    let salt = SaltString::generate(&mut OsRng);
    Argon2::default().hash_password(password.as_bytes(), &salt).unwrap().to_string()
}

/// `PasswordHash::new`, asked only whether it succeeds.
///
/// Trusted: the answer is a function of the string, and the empty string does
/// not parse.
#[verifier::external_body]
fn phc_parses(encoded: &str) -> (ok: bool)
    ensures
        ok == phc_well_formed(encoded@),
        ok ==> encoded@.len() > 0,
{
    PasswordHash::new(encoded).is_ok()
}

/// `Argon2::default().verify_password` on a PHC string that parses.
///
/// Trusted: the answer is a function of the password and the string. Argon2
/// takes the memory that the string's parameters ask for.
#[verifier::external_body]
fn argon2_verify(password: &str, encoded: &str) -> (ok: bool)
    requires
        phc_well_formed(encoded@),
    ensures
        ok == argon2_accepts(password@, encoded@),
{
    let parsed = PasswordHash::new(encoded).unwrap();
    Argon2::default().verify_password(password.as_bytes(), &parsed).is_ok()
}

/// Hashes a password for storage.
///
/// The result is never empty and always verifies the password it was made
/// from. Two calls on one password give different strings, as each draws its
/// own salt.
pub fn hash_password(password: &str) -> (encoded: String)
    requires
        hashable(password@),
    ensures
        password_matches(password@, encoded@),
        encoded@.len() > 0,
{
    argon2_hash(password)
}

/// Hashes a password for storage, unless it is too long to be hashed.
pub fn try_hash_password(password: &str) -> (encoded: Option<String>)
    ensures
        encoded is Some == hashable(password@),
        encoded matches Some(h) ==> password_matches(password@, h@) && h@.len() > 0,
{
    if password.as_bytes().len() <= MAX_PASSWORD_BYTES {
        Some(hash_password(password))
    } else {
        None
    }
}

/// Checks a password against a stored hash.
///
/// A stored string that is not a PHC string matches no password.
pub fn verify_password(password: &str, hash: &str) -> (ok: bool)
    ensures
        ok == password_matches(password@, hash@),
        ok ==> hash@.len() > 0,
{
    if !phc_parses(hash) {
        false
    } else {
        argon2_verify(password, hash)
    }
}

} // verus!
