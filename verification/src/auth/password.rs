//! Password hashing with Argon2 in the PHC string format.

use vstd::prelude::*;
use argon2::{PasswordHasher, PasswordVerifier};

use crate::errors::{is_validation_starting_with, DomainError, DomainResult};
use crate::text::concat;
use vstd::utf8::encode_utf8;

verus! {

#[verifier::external_type_specification]
#[verifier::external_body]
pub struct ExPasswordHashError(argon2::password_hash::Error);

/// The PHC string that Argon2 with its default parameters makes of
/// `password` (as UTF-8) and the B64-encoded `salt`.
pub uninterp spec fn argon2_phc(password: Seq<char>, salt: Seq<char>) -> Seq<char>;

/// What checking `password` against the PHC string `phc` gives: `None` when
/// `phc` is not a PHC string, else whether Argon2 with the parameters that
/// `phc` records reproduces its hash.
pub uninterp spec fn argon2_check(password: Seq<char>, phc: Seq<char>) -> Option<bool>;

/// The value of a character of the B64 alphabet (`A`-`Z`, `a`-`z`, `0`-`9`,
/// `+`, `/`), or `None` for any other character.
pub open spec fn b64_value(c: char) -> Option<nat> {
    if 'A' <= c && c <= 'Z' {
        Some((c as u32 - 'A' as u32) as nat)
    } else if 'a' <= c && c <= 'z' {
        Some((c as u32 - 'a' as u32 + 26) as nat)
    } else if '0' <= c && c <= '9' {
        Some((c as u32 - '0' as u32 + 52) as nat)
    } else if c == '+' {
        Some(62)
    } else if c == '/' {
        Some(63)
    } else {
        None
    }
}

/// Whether Argon2 takes `s` as a salt: 11 to 64 characters of the B64
/// alphabet (unpadded standard Base64) that decode canonically, so to at
/// least 8 bytes. A length one more than a multiple of 4 does not decode,
/// and the last character may carry no bits beyond the encoded bytes.
pub open spec fn is_b64_salt(s: Seq<char>) -> bool {
    &&& 11 <= s.len() <= 64
    &&& forall|i: int| 0 <= i < s.len() ==> (#[trigger] b64_value(s[i])) is Some
    &&& s.len() % 4 != 1
    &&& s.len() % 4 == 2 ==> b64_value(s.last())->0 % 16 == 0
    &&& s.len() % 4 == 3 ==> b64_value(s.last())->0 % 4 == 0
}

/// A fresh random salt (`SaltString::generate` with the operating system's
/// generator): 16 random bytes in B64, 22 characters. Nothing more is
/// promised of its value.
#[verifier::external_body]
fn generate_salt() -> (s: String)
    ensures
        is_b64_salt(s@),
        s@.len() == 22,
{
    argon2::password_hash::SaltString::generate(&mut argon2::password_hash::rand_core::OsRng).as_str().to_string()
}

/// Hashes `password` with `salt` (`SaltString::from_b64`, then
/// `Argon2::default().hash_password`); a hash made so checks out against
/// the same password. It succeeds on a salt that Argon2 takes and a
/// password of at most 2^32 - 1 bytes; on other inputs nothing is promised.
#[verifier::external_body]
fn argon2_hash_with_salt(password: &str, salt: &str) -> (r: Result<
    String,
    argon2::password_hash::Error,
>)
    ensures
        r matches Ok(h) ==> h@ == argon2_phc(password@, salt@) && argon2_check(password@, h@)
            == Some(true),
        is_b64_salt(salt@) && encode_utf8(password@).len() <= 0xFFFF_FFFF ==> r is Ok,
{
    let salt = argon2::password_hash::SaltString::from_b64(salt)?;
    argon2::Argon2::default().hash_password(password.as_bytes(), &salt).map(|h| h.to_string())
}

/// Checks `password` against `phc` (`PasswordHash::new`, then
/// `Argon2::default().verify_password`); fails only when `phc` does not
/// parse, as a text that is empty or does not start with `$` never does.
#[verifier::external_body]
fn argon2_verify(password: &str, phc: &str) -> (r: Result<bool, argon2::password_hash::Error>)
    ensures
        !(phc@.len() > 0 && phc@[0] == '$') ==> r is Err,
        match r {
            Ok(b) => argon2_check(password@, phc@) == Some(b),
            Err(_) => argon2_check(password@, phc@) is None,
        },
{
    let parsed = argon2::password_hash::PasswordHash::new(phc)?;
    Ok(argon2::Argon2::default().verify_password(password.as_bytes(), &parsed).is_ok())
}

/// The text of a hashing error (its `Display`); nothing is promised of it.
#[verifier::external_body]
fn password_hash_error_text(e: &argon2::password_hash::Error) -> String {
    e.to_string()
}

/// Hashes and checks passwords with Argon2.
#[derive(Debug, Clone, Copy)]
pub struct Argon2PasswordHasher;

impl Argon2PasswordHasher {
    /// Hashes `password` with a fresh random salt. The hash it returns
    /// checks out against `password`; it fails only on a password longer
    /// than 2^32 - 1 bytes.
    pub fn hash(&self, password: &str) -> (r: DomainResult<String>)
        ensures
            match r {
                Ok(h) => argon2_check(password@, h@) == Some(true),
                Err(e) => encode_utf8(password@).len() > 0xFFFF_FFFF && is_validation_starting_with(
                    e@,
                    "Password hashing failed: "@,
                ),
            },
    {
        let salt = generate_salt();
        self.hash_with_salt(password, salt.as_str())
    }

    /// Hashes `password` with the B64-encoded `salt`; on failure
    /// `Validation("Password hashing failed: <reason>")`, which never comes
    /// for a salt that Argon2 takes and a password of at most 2^32 - 1 bytes.
    pub fn hash_with_salt(&self, password: &str, salt: &str) -> (r: DomainResult<String>)
        ensures
            match r {
                Ok(h) => h@ == argon2_phc(password@, salt@) && argon2_check(password@, h@) == Some(
                    true,
                ),
                Err(e) => !(is_b64_salt(salt@) && encode_utf8(password@).len() <= 0xFFFF_FFFF)
                    && is_validation_starting_with(e@, "Password hashing failed: "@),
            },
    {
        match argon2_hash_with_salt(password, salt) {
            Ok(h) => Ok(h),
            Err(e) => {
                let reason = password_hash_error_text(&e);
                let m = concat("Password hashing failed: ", reason.as_str());
                proof {
                    reveal_strlit("Password hashing failed: ");
                    assert("Password hashing failed: "@.is_prefix_of(m@));
                }
                Err(DomainError::Validation(m))
            },
        }
    }

    /// Checks `password` against the stored `hash`: `Ok(true)` when they
    /// match, `Ok(false)` when they do not, and
    /// `Validation("Invalid hash format: <reason>")` when `hash` is not a
    /// PHC string, which a text that is empty or does not start with `$`
    /// never is.
    pub fn verify(&self, password: &str, hash: &str) -> (r: DomainResult<bool>)
        ensures
            match r {
                Ok(b) => argon2_check(password@, hash@) == Some(b),
                Err(e) => argon2_check(password@, hash@) is None && is_validation_starting_with(
                    e@,
                    "Invalid hash format: "@,
                ),
            },
            !(hash@.len() > 0 && hash@[0] == '$') ==> r is Err,
    {
        match argon2_verify(password, hash) {
            Ok(b) => Ok(b),
            Err(e) => {
                let reason = password_hash_error_text(&e);
                let m = concat("Invalid hash format: ", reason.as_str());
                proof {
                    reveal_strlit("Invalid hash format: ");
                    assert("Invalid hash format: "@.is_prefix_of(m@));
                }
                Err(DomainError::Validation(m))
            },
        }
    }
}

} // verus!
