use vstd::prelude::*;
use vstd::string::StrSliceExecFns;
use argon2::password_hash::rand_core::OsRng;
use argon2::password_hash::{PasswordHash, PasswordHasher, PasswordVerifier, SaltString};
use argon2::Argon2;
use crate::error::AppError;

verus! {

/// Smallest number of characters that a password must have.
pub const MIN_PASSWORD_LEN: usize = 8;

/// Longest password, in characters, that is always short enough to hash: a
/// character takes at most four bytes, and Argon2 takes up to `0xFFFF_FFFF`.
pub const MAX_HASHABLE_LEN: usize = 0x3FFF_FFFF;

/// `h` is a PHC string of the Argon2id algorithm.
pub open spec fn argon2id_tagged(h: Seq<char>) -> bool {
    h.len() >= 10 && h.subrange(0, 10) == "$argon2id$"@
}

/// Whether `s` parses as a PHC-format password hash string.
pub uninterp spec fn phc_parses(s: Seq<char>) -> bool;

/// Whether Argon2, run with the parameters and salt embedded in the PHC
/// string `phc`, reproduces its output from `password`.
pub uninterp spec fn argon2_accepts(password: Seq<char>, phc: Seq<char>) -> bool;

/// Relies on `password_hash::PasswordHash::new`: it tells whether a string is
/// a well-formed PHC hash; the answer depends on the string alone.
#[verifier::external_body]
fn phc_is_well_formed(stored: &str) -> (r: bool)
    ensures
        r == phc_parses(stored@),
{
    PasswordHash::new(stored).is_ok()
}

/// Relies on `PasswordVerifier::verify_password` of `Argon2::default()`: it
/// recomputes the hash of `password` with the parameters and salt parsed out
/// of `stored` and compares it with the stored output.
#[verifier::external_body]
fn argon2_verify(password: &str, stored: &str) -> (r: bool)
    requires
        phc_parses(stored@),
    ensures
        r == argon2_accepts(password@, stored@),
{
    match PasswordHash::new(stored) {
        Ok(parsed) => Argon2::default().verify_password(password.as_bytes(), &parsed).is_ok(),
        Err(_) => false,
    }
}

/// Relies on `SaltString::generate` (a fresh random salt from the operating
/// system) and `PasswordHasher::hash_password` of `Argon2::default()`
/// (Argon2id, default parameters, no secret): it fails only on a password of
/// more than `0xFFFF_FFFF` bytes; the PHC string it renders starts with
/// `$argon2id$`, parses again and verifies against the password it was made
/// from.
#[verifier::external_body]
fn argon2_hash(password: &str) -> (r: Option<String>)
    ensures
        password@.len() <= MAX_HASHABLE_LEN ==> r is Some,
        r matches Some(h) ==> phc_parses(h@) && argon2_accepts(password@, h@) && argon2id_tagged(
            h@,
        ),
{
    let salt = SaltString::generate(&mut OsRng);
    match Argon2::default().hash_password(password.as_bytes(), &salt) {
        Ok(hash) => Some(hash.to_string()),
        Err(_) => None,
    }
}

pub open spec fn is_upper(c: char) -> bool {
    'A' <= c && c <= 'Z'
}

pub open spec fn is_lower(c: char) -> bool {
    'a' <= c && c <= 'z'
}

pub open spec fn is_digit(c: char) -> bool {
    '0' <= c && c <= '9'
}

pub open spec fn has_upper(p: Seq<char>) -> bool {
    exists|i: int| 0 <= i < p.len() && is_upper(#[trigger] p[i])
}

pub open spec fn has_lower(p: Seq<char>) -> bool {
    exists|i: int| 0 <= i < p.len() && is_lower(#[trigger] p[i])
}

pub open spec fn has_digit(p: Seq<char>) -> bool {
    exists|i: int| 0 <= i < p.len() && is_digit(#[trigger] p[i])
}

/// The password policy: at least eight characters, among them an upper-case
/// letter, a lower-case letter and a digit.
pub open spec fn strong_password(p: Seq<char>) -> bool {
    &&& p.len() >= MIN_PASSWORD_LEN
    &&& has_upper(p)
    &&& has_lower(p)
    &&& has_digit(p)
}

/// What verifying `password` against the stored hash `stored` yields.
pub open spec fn verify_outcome(password: Seq<char>, stored: Seq<char>) -> Result<(), AppError> {
    if !phc_parses(stored) {
        Err(AppError::Internal)
    } else if argon2_accepts(password, stored) {
        Ok(())
    } else {
        Err(AppError::Authentication)
    }
}

/// Rejects a password that fails the password policy.
pub fn check_strength(password: &str) -> (r: Result<(), AppError>)
    ensures
        r is Ok <==> strong_password(password@),
        r matches Err(e) ==> e == AppError::Validation,
{
    let n = password.unicode_len();
    if n < MIN_PASSWORD_LEN {
        return Err(AppError::Validation);
    }
    let mut upper = false;
    let mut lower = false;
    let mut digit = false;
    let mut i: usize = 0;
    while i < n
        invariant
            n == password@.len(),
            i <= n,
            upper == (exists|j: int| 0 <= j < i && is_upper(#[trigger] password@[j])),
            lower == (exists|j: int| 0 <= j < i && is_lower(#[trigger] password@[j])),
            digit == (exists|j: int| 0 <= j < i && is_digit(#[trigger] password@[j])),
        decreases n - i,
    {
        let c = password.get_char(i);
        if 'A' <= c && c <= 'Z' {
            upper = true;
        }
        if 'a' <= c && c <= 'z' {
            lower = true;
        }
        if '0' <= c && c <= '9' {
            digit = true;
        }
        i = i + 1;
    }
    if upper && lower && digit {
        Ok(())
    } else {
        Err(AppError::Validation)
    }
}

/// Hashes a password with Argon2id and a fresh random salt. Whatever hash
/// comes back verifies against the same password; only a password too long
/// to hash fails.
pub fn hash(password: &str) -> (r: Result<String, AppError>)
    ensures
        password@.len() <= MAX_HASHABLE_LEN ==> r is Ok,
        r matches Ok(h) ==> verify_outcome(password@, h@) == Ok::<(), AppError>(())
            && argon2id_tagged(h@),
        r matches Err(e) ==> e == AppError::Internal,
{
    match argon2_hash(password) {
        Some(h) => Ok(h),
        None => Err(AppError::Internal),
    }
}

/// Verifies `password` against a stored PHC hash: `Internal` when the stored
/// hash is malformed, `Authentication` when the password does not match.
pub fn verify(password: &str, stored: &str) -> (r: Result<(), AppError>)
    ensures
        r == verify_outcome(password@, stored@),
{
    if !phc_is_well_formed(stored) {
        return Err(AppError::Internal);
    }
    if argon2_verify(password, stored) {
        Ok(())
    } else {
        Err(AppError::Authentication)
    }
}

} // verus!
