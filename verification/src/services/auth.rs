//! Password hashes: Argon2id, as PHC strings.

use crate::error::{AppError, AppResult, ErrorView};
use argon2::{PasswordHasher, PasswordVerifier};
use vstd::prelude::*;
use vstd::string::*;

verus! {

/// What the check of a password against a stored hash came to.
#[derive(Debug, Clone, Copy, PartialEq, Eq)]
pub enum PasswordCheck {
    /// The password belongs to the hash.
    Match,
    /// It does not, or the hash cannot be computed with.
    Mismatch,
    /// The memory that the hash asks for could not be allocated.
    OutOfMemory,
}

/// The complaint of `argon2::PasswordHash::new` about a stored hash, if it has
/// one.
pub uninterp spec fn phc_error(stored: Seq<char>) -> Option<Seq<char>>;

/// Hashing `password` with the algorithm, parameters and salt of the PHC string
/// `stored` gives the output that stands in it.
pub uninterp spec fn argon2_matches(password: Seq<char>, stored: Seq<char>) -> bool;

/// What the check of a password against a stored hash can come to. The memory that
/// the hash asks for may be missing at any time.
pub open spec fn is_check_outcome(
    password: Seq<char>,
    stored: Seq<char>,
    check: PasswordCheck,
) -> bool {
    match check {
        PasswordCheck::Match => argon2_matches(password, stored),
        PasswordCheck::Mismatch => !argon2_matches(password, stored),
        PasswordCheck::OutOfMemory => true,
    }
}

/// Calls `argon2::PasswordHash::new`, which parses a PHC string. Claimed: it
/// accepts a string or complains about it by the string alone.
#[verifier::external_body]
fn check_phc(stored: &str) -> (r: Result<(), String>)
    ensures
        r is Ok <==> phc_error(stored@) is None,
        r matches Err(text) ==> phc_error(stored@) == Some(text@),
{
    match argon2::PasswordHash::new(stored) {
        Ok(_) => Ok(()),
        Err(e) => Err(e.to_string()),
    }
}

/// Calls `verify_password` of `argon2::Argon2` with its default settings on a
/// string that parses. Claimed: it succeeds only where the password belongs to
/// the hash, and fails otherwise, except that it also fails with `OutOfMemory`
/// where the hash's memory cannot be allocated. When that happens is not stated:
/// it depends on the machine.
#[verifier::external_body]
fn check_password(password: &str, stored: &str) -> (r: PasswordCheck)
    requires
        phc_error(stored@) is None,
    ensures
        is_check_outcome(password@, stored@, r),
{
    let parsed = match argon2::PasswordHash::new(stored) {
        Ok(parsed) => parsed,
        Err(_) => return PasswordCheck::Mismatch,
    };
    match argon2::Argon2::default().verify_password(password.as_bytes(), &parsed) {
        Ok(()) => PasswordCheck::Match,
        Err(argon2::password_hash::Error::OutOfMemory) => PasswordCheck::OutOfMemory,
        Err(_) => PasswordCheck::Mismatch,
    }
}

/// Calls `hash_password` of `argon2::Argon2` with its default settings, which
/// draws a random salt. Claimed of every hash that comes back: it is a PHC string
/// of Argon2id that parses, and the password belongs to it. A password of more
/// than 2^32 - 1 bytes is refused. Which hash comes back, and whether the random
/// generator or an allocation fails, is not stated.
#[verifier::external_body]
fn new_hash(password: &str) -> (r: Result<String, String>)
    ensures
        r matches Ok(hash) ==> phc_error(hash@) is None && argon2_matches(password@, hash@)
            && "$argon2id$"@.is_prefix_of(hash@),
        password.spec_bytes().len() > 0xffff_ffff ==> r is Err,
{
    match argon2::Argon2::default().hash_password(password.as_bytes()) {
        Ok(hash) => Ok(hash.to_string()),
        Err(e) => Err(e.to_string()),
    }
}

/// What a check says about a login: only a match lets the user in.
pub fn accepts(check: PasswordCheck) -> (r: bool)
    ensures
        r == (check is Match),
{
    match check {
        PasswordCheck::Match => true,
        _ => false,
    }
}

/// Verifies a password against a stored hash.
///
/// A hash that does not parse is an error. Otherwise the answer is that of a check:
/// the password is accepted only if it belongs to the hash, and one that does is
/// rejected only where the memory that the hash asks for cannot be had.
pub fn verify_password(password: &str, stored_hash: &str) -> (r: AppResult<bool>)
    ensures
        match phc_error(stored_hash@) {
            Some(complaint) => r matches Err(AppError::Auth(text)) && text@
                == "Invalid password hash format: "@ + complaint,
            None => exists|check: PasswordCheck| #[trigger]
                is_check_outcome(password@, stored_hash@, check) && r == Ok::<bool, AppError>(
                    check is Match,
                ),
        },
{
    match check_phc(stored_hash) {
        Err(complaint) => Err(
            AppError::Auth(
                "Invalid password hash format: ".to_owned().concat(complaint.as_str()),
            ),
        ),
        Ok(()) => {
            let check = check_password(password, stored_hash);
            assert(is_check_outcome(password@, stored_hash@, check));
            Ok(accepts(check))
        },
    }
}

/// What is handed on of an attempt to hash a password.
pub fn hash_outcome(attempt: Result<String, String>) -> (r: AppResult<String>)
    ensures
        match attempt {
            Ok(hash) => r == Ok::<String, AppError>(hash),
            Err(complaint) => r matches Err(AppError::Auth(text)) && text@
                == "Failed to hash password: "@ + complaint@,
        },
{
    match attempt {
        Ok(hash) => Ok(hash),
        Err(complaint) => Err(
            AppError::Auth("Failed to hash password: ".to_owned().concat(complaint.as_str())),
        ),
    }
}

/// What `hash_password` can come back with: a hash that the password belongs to,
/// or a complaint.
pub open spec fn is_hash_outcome(password: Seq<char>, r: AppResult<String>) -> bool {
    match r {
        Ok(hash) => phc_error(hash@) is None && argon2_matches(password, hash@)
            && "$argon2id$"@.is_prefix_of(hash@),
        Err(e) => exists|complaint: Seq<char>|
            e@ == ErrorView::Auth(#[trigger] ("Failed to hash password: "@ + complaint)),
    }
}

/// Hashes a password with Argon2id and a fresh salt, to a PHC string that
/// `verify_password` reads and that the password belongs to.
pub fn hash_password(password: &str) -> (r: AppResult<String>)
    ensures
        is_hash_outcome(password@, r),
        password.spec_bytes().len() > 0xffff_ffff ==> r is Err,
{
    hash_outcome(new_hash(password))
}

/// The password that a hash was made of is recognised by it: a check of the two
/// comes to a match, or fails for want of memory, and never to a mismatch.
pub proof fn law_hashed_passwords_are_recognised(
    password: Seq<char>,
    hash: String,
    check: PasswordCheck,
)
    requires
        is_hash_outcome(password, Ok(hash)),
        is_check_outcome(password, hash@, check),
    ensures
        phc_error(hash@) is None,
        check is Match || check is OutOfMemory,
{
}

/// The answers of two checks of a password against a hash differ only where one of
/// them fails for want of memory.
pub proof fn law_checks_agree(
    password: Seq<char>,
    stored: Seq<char>,
    first: PasswordCheck,
    second: PasswordCheck,
)
    requires
        is_check_outcome(password, stored, first),
        is_check_outcome(password, stored, second),
    ensures
        first == second || first is OutOfMemory || second is OutOfMemory,
{
}

} // verus!
