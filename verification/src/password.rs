//! Password hashing with Argon2 (PHC strings).

use vstd::prelude::*;

use argon2::password_hash::{Error as HashError, PasswordHash, PasswordHasher, PasswordVerifier, SaltString};
use argon2::Argon2;

use crate::text::utf8_len;

verus! {

/// Why hashing or checking a password failed.
#[derive(Debug, Clone, PartialEq, Eq)]
pub enum PasswordError {
    /// Argon2 itself failed; the text is its error message.
    Hash(String),
    /// The stored hash is not a PHC string.
    InvalidStoredHash,
}

impl PasswordError {
    /// The error's message, as its `Display` writes it.
    pub fn message(&self) -> (s: String)
        ensures
            self matches PasswordError::Hash(m) ==> s@ == "argon2 hash error: "@ + m@,
            self is InvalidStoredHash ==> s@ == "invalid stored hash"@,
    {
        match self {
            PasswordError::Hash(m) => {
                let mut s = crate::text::to_owned_string("argon2 hash error: ");
                s.append(m.as_str());
                s
            },
            PasswordError::InvalidStoredHash => crate::text::to_owned_string("invalid stored hash"),
        }
    }
}

/// How an Argon2 check of a password against a parsed hash came out.
#[derive(Debug, Clone, PartialEq, Eq)]
pub enum Argon2Verdict {
    /// The password matches.
    Match,
    /// The password does not match.
    Mismatch,
    /// The check itself failed; the text is the error message.
    Failed(String),
    /// The stored value is not a PHC string.
    Unparsable,
}

/// Whether password-hash's `PasswordHash::new` accepts `s` as a PHC string.
pub uninterp spec fn phc_string_parses(s: Seq<char>) -> bool;

/// Whether Argon2 (argon2's `Argon2::default()`, which has no secret key)
/// verifies `password` against the PHC string `stored`: `verify_password`
/// recomputes the hash with the salt and parameters that `stored` holds and
/// finds the same output. It depends on these two values alone.
pub uninterp spec fn argon2_accepts(password: Seq<char>, stored: Seq<char>) -> bool;

/// `stored` is a PHC string that argon2's `hash_password` of
/// `Argon2::default()` wrote with a generated salt: Argon2id, version 19, the
/// default parameters, a 16-byte salt and a 32-byte output.
pub uninterp spec fn argon2_made(stored: Seq<char>) -> bool;

/// A password Argon2 takes: at most `u32::MAX` bytes (argon2's
/// `MAX_PWD_LEN`).
pub open spec fn password_fits(password: Seq<char>) -> bool {
    utf8_len(password) <= 0xFFFF_FFFF
}

/// password-hash `PasswordVerifier::verify_password` of `Argon2::default()`,
/// on the stored value parsed with `PasswordHash::new` (the call's argument
/// type). Stated: the value is unparsable exactly when it is no PHC string,
/// and always when it does not start with `$` (the parser's first field must
/// be empty); the result is a match exactly when Argon2 accepts the
/// password. Its `Password` error is a mismatch, any other error a failure
/// with its message; against a string that `hash_password` wrote, checking a
/// password that fits never fails (the salt decodes, the parameters and the
/// algorithm are Argon2's own, and the password's length is the only other
/// check). Not stated: which passwords Argon2 accepts.
#[verifier::external_body]
fn argon2_verify(password: &str, stored: &str) -> (v: Argon2Verdict)
    ensures
        argon2_made(stored@) && password_fits(password@) ==> !(v is Failed) && !(v is Unparsable),
        (v is Unparsable) == !phc_string_parses(stored@),
        !(stored@.len() > 0 && stored@[0] == '$') ==> v is Unparsable,
        (v is Match) == argon2_accepts(password@, stored@),
{
    let hash = match PasswordHash::new(stored) {
        Ok(h) => h,
        Err(_) => return Argon2Verdict::Unparsable,
    };
    match Argon2::default().verify_password(password.as_bytes(), &hash) {
        Ok(()) => Argon2Verdict::Match,
        Err(HashError::Password) => Argon2Verdict::Mismatch,
        Err(e) => Argon2Verdict::Failed(e.to_string()),
    }
}

/// password-hash `PasswordHasher::hash_password` of `Argon2::default()`,
/// with a salt from `SaltString::generate` (the operating system's random
/// source), written as its PHC string (`PasswordHash`'s `Display`), or the
/// error's message. Stated: the string parses (the form `Display` writes is
/// the form the parser reads), Argon2 accepts the password against it (it
/// recomputes the same output from the same salt and parameters), and
/// hashing succeeds for every password that fits (with the default
/// parameters and a generated 16-byte salt, the password's length is the
/// only check that can fail). Not stated: which string (the salt is random).
#[verifier::external_body]
fn argon2_hash(password: &str) -> (r: Result<String, String>)
    ensures
        r matches Ok(h) ==> phc_string_parses(h@) && argon2_made(h@) && argon2_accepts(password@, h@),
        password_fits(password@) ==> r is Ok,
{
    let salt = SaltString::generate(&mut argon2::password_hash::rand_core::OsRng);
    match Argon2::default().hash_password(password.as_bytes(), &salt) {
        Ok(h) => Ok(h.to_string()),
        Err(e) => Err(e.to_string()),
    }
}

/// Hashes a password with Argon2 and a fresh random salt, as a PHC string
/// that `verify` accepts the password against. It fails only for a password
/// longer than Argon2 takes.
pub fn hash(password: &str) -> (r: Result<String, PasswordError>)
    ensures
        r matches Ok(h) ==> phc_string_parses(h@) && argon2_made(h@) && argon2_accepts(password@, h@),
        password_fits(password@) ==> r is Ok,
        r matches Err(e) ==> e is Hash,
{
    match argon2_hash(password) {
        Ok(h) => Ok(h),
        Err(m) => Err(PasswordError::Hash(m)),
    }
}

/// What a verification answers for a given Argon2 verdict.
pub open spec fn verdict_answer(v: Argon2Verdict) -> Result<bool, PasswordError> {
    match v {
        Argon2Verdict::Match => Ok(true),
        Argon2Verdict::Mismatch => Ok(false),
        Argon2Verdict::Failed(m) => Err(PasswordError::Hash(m)),
        Argon2Verdict::Unparsable => Err(PasswordError::InvalidStoredHash),
    }
}

/// `Ok(true)` on a match, `Ok(false)` on a mismatch, the error otherwise.
pub fn verdict_result(v: Argon2Verdict) -> (r: Result<bool, PasswordError>)
    ensures
        r == verdict_answer(v),
{
    match v {
        Argon2Verdict::Match => Ok(true),
        Argon2Verdict::Mismatch => Ok(false),
        Argon2Verdict::Failed(m) => Err(PasswordError::Hash(m)),
        Argon2Verdict::Unparsable => Err(PasswordError::InvalidStoredHash),
    }
}

/// Checks `password` against a stored PHC hash. `Ok(true)` exactly when
/// Argon2 accepts it; a stored value that is not a PHC string (anything not
/// starting with `$`, for one) is an error.
pub fn verify(password: &str, stored_hash: &str) -> (r: Result<bool, PasswordError>)
    ensures
        (r == Err::<bool, PasswordError>(PasswordError::InvalidStoredHash)) <==> !phc_string_parses(
            stored_hash@,
        ),
        !(stored_hash@.len() > 0 && stored_hash@[0] == '$') ==> r == Err::<bool, PasswordError>(
            PasswordError::InvalidStoredHash,
        ),
        (r == Ok::<bool, PasswordError>(true)) <==> argon2_accepts(password@, stored_hash@),
        r matches Ok(b) ==> b == argon2_accepts(password@, stored_hash@),
        r matches Ok(_) ==> phc_string_parses(stored_hash@),
        argon2_made(stored_hash@) && password_fits(password@) ==> r == Ok::<bool, PasswordError>(
            argon2_accepts(password@, stored_hash@),
        ),
{
    verdict_result(argon2_verify(password, stored_hash))
}

/// Whether `password` matches a stored hash: exactly when Argon2 accepts it
/// (any failure, an unparsable hash included, counts as no match).
pub fn password_matches(password: &str, stored_hash: &str) -> (b: bool)
    ensures
        b == argon2_accepts(password@, stored_hash@),
        b ==> phc_string_parses(stored_hash@),
        stored_hash@.len() == 0 ==> !b,
{
    match verify(password, stored_hash) {
        Ok(true) => true,
        _ => false,
    }
}

} // verus!
