//! Password hashing. The hasher is Argon2 with its default parameters and
//! a random salt; this module only says which error a failure becomes.

use vstd::prelude::*;
use vstd::string::StringSliceAdditionalSpecFns;
use vstd::utf8::encode_utf8;
use crate::shared::error::{AppError, ErrorKind};
use argon2::password_hash::{PasswordHasher, PasswordVerifier};

verus! {

/// Whether a stored hash parses and the password matches it; `None` when
/// the hash does not parse.
pub uninterp spec fn argon2_matches(password: Seq<u8>, hash: Seq<char>) -> Option<bool>;

/// `SaltString::generate`, then `Argon2::hash_password`: the hash depends
/// on a random salt, so its value is left open; but it records the salt
/// and the parameters it was made with, so that the password it was made
/// of matches it. A failure is handed back as the hasher's own message.
#[verifier::external_body]
pub(crate) fn argon2_hash(password: &[u8]) -> (hash: Result<String, String>)
    ensures
        hash is Ok ==> argon2_matches(password@, hash->Ok_0@) == Some(true),
{
    let salt = argon2::password_hash::SaltString::generate(
        &mut argon2::password_hash::rand_core::OsRng,
    );
    argon2::Argon2::default().hash_password(password, &salt).map(|h| h.to_string()).map_err(
        |e| e.to_string(),
    )
}

/// `PasswordHash::new`, then `Argon2::verify_password`: the outcome
/// depends on the password and the stored hash alone. A hash that does not
/// parse is handed back as the parser's own message.
#[verifier::external_body]
pub(crate) fn argon2_verify(password: &[u8], hash: &str) -> (outcome: Result<bool, String>)
    ensures
        outcome is Ok == argon2_matches(password@, hash@) is Some,
        outcome is Ok ==> outcome->Ok_0 == argon2_matches(password@, hash@)->Some_0,
{
    match argon2::password_hash::PasswordHash::new(hash) {
        Ok(parsed) => Ok(argon2::Argon2::default().verify_password(password, &parsed).is_ok()),
        Err(e) => Err(e.to_string()),
    }
}

/// The error a failed hashing becomes.
pub fn hashing_outcome(outcome: Result<String, String>) -> (r: Result<String, AppError>)
    ensures
        match outcome {
            Ok(h) => r == Ok::<String, AppError>(h),
            Err(e) => r is Err && r->Err_0.is(
                ErrorKind::Internal,
                "Failed to hash password: "@ + e@,
            ),
        },
{
    match outcome {
        Ok(h) => Ok(h),
        Err(e) => {
            let mut m = String::from_str("Failed to hash password: ");
            m.append(e.as_str());
            Err(AppError::internal(m.as_str()))
        },
    }
}

/// Hashes a password with a fresh salt. The hash is one that the password
/// verifies against; a failure of the hasher is an internal error that
/// carries the hasher's message.
pub fn hash_password(password: &str) -> (r: Result<String, AppError>)
    ensures
        r is Ok ==> argon2_matches(encode_utf8(password@), r->Ok_0@) == Some(true),
        r is Err ==> r->Err_0.kind() == ErrorKind::Internal
            && "Failed to hash password: "@.is_prefix_of(r->Err_0.text()),
{
    let outcome = argon2_hash(password.as_bytes());
    proof {
        if outcome is Err {
            let prefix = "Failed to hash password: "@;
            let whole = prefix + outcome->Err_0@;
            assert(whole.subrange(0, prefix.len() as int) =~= prefix);
        }
    }
    hashing_outcome(outcome)
}

/// The error a failed verification becomes.
pub fn verification_outcome(outcome: Result<bool, String>) -> (r: Result<(), AppError>)
    ensures
        match outcome {
            Ok(true) => r is Ok,
            Ok(false) => r is Err && r->Err_0.is(ErrorKind::Authentication, "Invalid password"@),
            Err(e) => r is Err && r->Err_0.is(
                ErrorKind::Internal,
                "Failed to parse password hash: "@ + e@,
            ),
        },
{
    match outcome {
        Ok(true) => Ok(()),
        Ok(false) => Err(AppError::authentication("Invalid password")),
        Err(e) => {
            let mut m = String::from_str("Failed to parse password hash: ");
            m.append(e.as_str());
            Err(AppError::internal(m.as_str()))
        },
    }
}

/// Verifies a password against a stored hash.
pub fn verify_password(password: &str, hash: &str) -> (r: Result<(), AppError>)
    ensures
        match argon2_matches(encode_utf8(password@), hash@) {
            Some(true) => r is Ok,
            Some(false) => r is Err && r->Err_0.is(
                ErrorKind::Authentication,
                "Invalid password"@,
            ),
            None => r is Err && r->Err_0.kind() == ErrorKind::Internal
                && "Failed to parse password hash: "@.is_prefix_of(r->Err_0.text()),
        },
{
    let outcome = argon2_verify(password.as_bytes(), hash);
    proof {
        if outcome is Err {
            let prefix = "Failed to parse password hash: "@;
            let whole = prefix + outcome->Err_0@;
            assert(whole.subrange(0, prefix.len() as int) =~= prefix);
        }
    }
    verification_outcome(outcome)
}

} // verus!
