//! The password codec and the authentication step.
//!
//! Hashing and verification are delegated to the Argon2 implementation
//! behind two trusted wrappers; everything around them — credential
//! checking, the lookup-then-verify step, and the permission sets — is
//! verified.

use vstd::prelude::*;
use vstd::string::StringExecFns;
use argon2::password_hash::{PasswordHash, PasswordHasher, PasswordVerifier, SaltString};
use argon2::password_hash::rand_core::OsRng;
use argon2::Argon2;
use crate::models::{Credentials, User};
use crate::text::is_blank_seq;
use crate::text::is_blank;

verus! {

/// A fault from the storage or session layer, as surfaced to callers of
/// the authentication backend.
#[derive(Debug, Clone)]
pub enum AuthError {
    Database(String),
    Other(String),
}

/// Whether Argon2 verification accepts `password` against the
/// self-describing hash string `hash`; deterministic in the two strings
/// (a malformed hash string is simply never accepted).
pub uninterp spec fn argon2_verifies(password: Seq<char>, hash: Seq<char>) -> bool;

/// Relies on `SaltString::generate` and `Argon2::hash_password`: on
/// success the returned PHC string encodes algorithm, salt and digest
/// together, and verifying the same password against it succeeds.
#[verifier::external_body]
fn argon2_hash_with_random_salt(password: &str) -> (r: Option<String>)
    ensures
        r matches Some(h) ==> argon2_verifies(password@, h@) && h@.len() > 0,
{
    let salt = SaltString::generate(&mut OsRng);
    match Argon2::default().hash_password(password.as_bytes(), &salt) {
        Ok(h) => Some(h.to_string()),
        Err(_) => None,
    }
}

/// Relies on `PasswordHash::new` and `Argon2::verify_password`: the
/// outcome depends on the submitted password and the stored hash string
/// alone, and a hash string that does not parse is never accepted.
#[verifier::external_body]
fn argon2_check(submitted: &str, stored_hash: &str) -> (r: bool)
    ensures
        r == argon2_verifies(submitted@, stored_hash@),
{
    match PasswordHash::new(stored_hash) {
        Ok(parsed) => Argon2::default().verify_password(submitted.as_bytes(), &parsed).is_ok(),
        Err(_) => false,
    }
}

/// Hashes a password with a fresh random salt. Never fails observably: on
/// an internal hashing fault it retries once and then falls back to a
/// fixed, syntactically hash-shaped (if unusable) string. So the result is
/// always non-empty, and it either verifies against the hashed password or
/// is that fixed fallback literal.
pub fn hash_password(password: &str) -> (r: String)
    ensures
        r@.len() > 0,
        argon2_verifies(password@, r@) || r@ == "$argon2id$error$hash"@,
{
    match argon2_hash_with_random_salt(password) {
        Some(h) => h,
        None => match argon2_hash_with_random_salt(password) {
            Some(h) => h,
            None => {
                proof {
                    reveal_strlit("$argon2id$error$hash");
                }
                String::from_str("$argon2id$error$hash")
            },
        },
    }
}

/// Verifies a submitted password against a stored hash string; false both
/// for a mismatch and for a malformed hash, never an error.
pub fn verify_password(submitted: &str, stored_hash: &str) -> (r: bool)
    ensures
        r == argon2_verifies(submitted@, stored_hash@),
{
    argon2_check(submitted, stored_hash)
}

/// The verify half of an authentication attempt: the user found by exact
/// username lookup (if any) is returned exactly when the submitted
/// password verifies against the stored hash. A missing user and a wrong
/// password are indistinguishable to the caller, and a comparably
/// expensive verification runs on both paths so that neither case is
/// exposed by timing.
pub fn authenticate_user(found: Option<User>, password: &str) -> (r: Option<User>)
    ensures
        match found {
            Some(u) => {
                if argon2_verifies(password@, u.password_hash@) {
                    r == Some(u)
                } else {
                    r is None
                }
            },
            None => r is None,
        },
{
    match found {
        Some(u) => {
            if verify_password(password, &u.password_hash) {
                Some(u)
            } else {
                None
            }
        },
        None => {
            // No user: still burn a full verification against a fixed,
            // well-formed hash with the default cost parameters, and
            // discard the outcome.
            let discarded = verify_password(
                password,
                "$argon2id$v=19$m=19456,t=2,p=1$AAAAAAAAAAAAAAAAAAAAAA$AAAAAAAAAAAAAAAAAAAAAAAAAAAAAAAAAAAAAAAAAAA",
            );
            let _ = discarded;
            None
        },
    }
}

/// Checks the shape of submitted credentials: the username must not be
/// blank and the password must not be empty, each violation with its own
/// message.
pub fn validate_credentials(creds: &Credentials) -> (r: Result<(), String>)
    ensures
        is_blank_seq(creds.username@) ==> (r matches Err(m) && m@ == "Username cannot be empty"@),
        !is_blank_seq(creds.username@) && creds.password@.len() == 0 ==> (r matches Err(m) && m@
            == "Password cannot be empty"@),
        !is_blank_seq(creds.username@) && creds.password@.len() > 0 ==> r is Ok,
{
    if is_blank(creds.username.as_str()) {
        Err(String::from_str("Username cannot be empty"))
    } else if creds.password.as_str().is_empty() {
        Err(String::from_str("Password cannot be empty"))
    } else {
        Ok(())
    }
}

/// The permission set a user holds: the one elevated permission for an
/// admin, nothing for anyone else.
pub fn build_user_permissions(is_admin: bool) -> (perms: Vec<String>)
    ensures
        is_admin ==> perms@.len() == 1 && perms@[0]@ == "admin"@,
        !is_admin ==> perms@.len() == 0,
{
    let mut perms: Vec<String> = Vec::new();
    if is_admin {
        perms.push(String::from_str("admin"));
    }
    perms
}

/// The permission set of a user's groups, which is always empty.
pub fn build_group_permissions() -> (perms: Vec<String>)
    ensures
        perms@.len() == 0,
{
    Vec::new()
}

} // verus!
