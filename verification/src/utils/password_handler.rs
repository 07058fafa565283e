use argon2::password_hash::rand_core::OsRng;
use argon2::password_hash::{PasswordHash, PasswordHasher, PasswordVerifier, SaltString};
use argon2::Argon2;
use vstd::prelude::*;

verus! {

/// What Argon2 says of a password and a stored hash: `Some(true)` where
/// the password matches the hash, `Some(false)` where it does not, `None`
/// where the stored text cannot be read as a hash or names parameters that
/// Argon2 refuses.
pub uninterp spec fn argon2_verdict(password: Seq<char>, stored: Seq<char>) -> Option<bool>;

/// Hashes a password with Argon2 in its default setting
/// (`Argon2::default().hash_password`) under a salt drawn from the
/// operating system (`SaltString::generate`), and returns the hash in PHC
/// text form, or `None` where Argon2 reports an error.
///
/// Trusted. The salt is random, so the text differs from call to call; the
/// claim is the one that the usage notes of the `argon2` crate make: a hash
/// that was made from a password is accepted for that password. The call
/// panics if the operating system cannot supply random bytes.
#[verifier::external_body]
pub fn hash_password(password: &str) -> (hash: Option<String>)
    ensures
        hash matches Some(text) ==> argon2_verdict(password@, text@) == Some(true),
{
    let salt = SaltString::generate(&mut OsRng);
    match Argon2::default().hash_password(password.as_bytes(), &salt) {
        Ok(hash) => Some(hash.to_string()),
        Err(_) => None,
    }
}

/// Checks a password against a stored hash: parses the hash
/// (`PasswordHash::new`) and has Argon2 recompute it from the password with
/// the salt and parameters written in it (`Argon2::default().verify_password`).
///
/// Trusted. The claim is that the answer depends on the two texts alone:
/// `Some(true)` where Argon2 accepts, `Some(false)` where it reports
/// `Error::Password`, `None` on a parse error or any other error. The
/// stored hash says how much memory and how many passes Argon2 takes; where
/// the memory cannot be had, the process is aborted.
#[verifier::external_body]
pub fn verify_password(password: &str, origin: String) -> (verdict: Option<bool>)
    ensures
        verdict == argon2_verdict(password@, origin@),
{
    match PasswordHash::new(&origin) {
        Ok(hash) => match Argon2::default().verify_password(password.as_bytes(), &hash) {
            Ok(()) => Some(true),
            Err(argon2::password_hash::Error::Password) => Some(false),
            Err(_) => None,
        },
        Err(_) => None,
    }
}

} // verus!
