//! Password hashing (Argon2) and the password strength policy.
use vstd::prelude::*;
use vstd::string::StringSliceAdditionalSpecFns;

use argon2::password_hash::rand_core::OsRng;
use argon2::password_hash::SaltString;
use argon2::{Argon2, PasswordHash, PasswordHasher, PasswordVerifier};

verus! {

/// The PHC string that Argon2 (default parameters) computes for a password
/// and a base64 salt; `None` when the salt is not acceptable.
pub uninterp spec fn argon2_hash_text(password: Seq<u8>, salt: Seq<char>) -> Option<Seq<char>>;

/// Whether Argon2 verifies `password` against the PHC string `hash`; `None`
/// when `hash` is no PHC string.
pub uninterp spec fn argon2_verification(password: Seq<u8>, hash: Seq<char>) -> Option<bool>;

/// The bytes that `Salt::decode_b64` reads from a salt text (the PHC
/// string format's unpadded base64); `None` when it is no such text.
pub uninterp spec fn phc_salt_bytes(salt: Seq<char>) -> Option<Seq<u8>>;

/// A fresh random salt (`SaltString::generate` with the OS generator).
/// Trusted: the salt is the B64 text of 16 random bytes, as `generate`
/// draws `Salt::RECOMMENDED_LENGTH` bytes and encodes them with
/// `encode_b64`; nothing is claimed of which bytes.
#[verifier::external_body]
fn random_salt() -> (r: String)
    ensures
        match phc_salt_bytes(r@) {
            Some(b) => b.len() == 16,
            None => false,
        },
{
    SaltString::generate(&mut OsRng).as_str().to_string()
}

/// Hashes `password` with `Argon2::default().hash_password` and the salt read
/// by `SaltString::from_b64`. Trusted: the result is `argon2_hash_text` of the
/// password bytes and the salt, and (as `PasswordVerifier` documents) the
/// password verifies against the hash it produced. For a salt text that
/// decodes to 8 to 48 bytes (so `Salt::from_b64` accepts its length of at
/// most 64 characters, and argon2's 8-byte minimum is met) and a password
/// of at most `MAX_PWD_LEN` bytes, hashing succeeds.
#[verifier::external_body]
fn argon2_hash(password: &str, salt: &str) -> (r: Option<String>)
    ensures
        match phc_salt_bytes(salt@) {
            Some(b) => 8 <= b.len() <= 48 && password.spec_bytes().len() <= 0xFFFFFFFF ==> r is Some,
            None => true,
        },
        match r {
            Some(h) => argon2_hash_text(password.spec_bytes(), salt@) == Some(h@) && argon2_verification(
                password.spec_bytes(),
                h@,
            ) == Some(true),
            None => argon2_hash_text(password.spec_bytes(), salt@) is None,
        },
{
    let salt = SaltString::from_b64(salt).ok()?;
    Argon2::default().hash_password(password.as_bytes(), &salt).ok().map(|h| h.to_string())
}

/// Parses `hash` with `PasswordHash::new` and checks `password` against it with
/// `Argon2::default().verify_password`. Trusted: the result is
/// `argon2_verification` of the password bytes and the hash.
#[verifier::external_body]
fn argon2_verify(password: &str, hash: &str) -> (r: Option<bool>)
    ensures
        r == argon2_verification(password.spec_bytes(), hash@),
{
    let parsed = PasswordHash::new(hash).ok()?;
    Some(Argon2::default().verify_password(password.as_bytes(), &parsed).is_ok())
}

/// What hashing the password with `salt` gives: the PHC string, or the
/// error for a salt that is not acceptable.
pub open spec fn hash_outcome(password: Seq<u8>, salt: Seq<char>, r: Result<String, String>) -> bool {
    match argon2_hash_text(password, salt) {
        Some(h) => r matches Ok(x) && x@ == h,
        None => r matches Err(m) && m@ == "hash password: invalid salt"@,
    }
}

/// Hashes a password with a fresh random salt: what it gives is the
/// outcome for the salt drawn, and a hash it gives verifies the password.
pub fn hash_password(password: &str) -> (r: Result<String, String>)
    ensures
        exists|salt: Seq<char>| #[trigger] hash_outcome(password.spec_bytes(), salt, r),
        r matches Ok(h) ==> argon2_verification(password.spec_bytes(), h@) == Some(true),
        password.spec_bytes().len() <= 0xFFFFFFFF ==> r is Ok,
{
    let salt = random_salt();
    let outcome = match argon2_hash(password, salt.as_str()) {
        Some(h) => Ok(h),
        None => Err(String::from_str("hash password: invalid salt")),
    };
    assert(hash_outcome(password.spec_bytes(), salt@, outcome));
    assert(exists|t: Seq<char>| #[trigger] hash_outcome(password.spec_bytes(), t, outcome));
    outcome
}

/// Checks a password against a stored hash; an error when the hash cannot be read.
pub fn verify_password(password: &str, hash: &str) -> (r: Result<bool, String>)
    ensures
        match r {
            Ok(b) => argon2_verification(password.spec_bytes(), hash@) == Some(b),
            Err(_) => argon2_verification(password.spec_bytes(), hash@) is None,
        },
{
    match argon2_verify(password, hash) {
        Some(ok) => Ok(ok),
        None => Err(String::from_str("parse hash: invalid password hash")),
    }
}

/// The reason a password fails the strength policy (at least 12 bytes, an
/// upper-case and a lower-case ASCII letter, an ASCII digit and a character
/// that is no ASCII letter or digit), checked in that order; `None` when it
/// passes.
pub open spec fn password_policy_violation(bytes_len: nat, s: Seq<char>) -> Option<Seq<char>> {
    if bytes_len < 12 {
        Some("password must be at least 12 characters"@)
    } else if !(exists|i: int| 0 <= i < s.len() && 'A' <= #[trigger] s[i] <= 'Z') {
        Some("password must include an uppercase letter"@)
    } else if !(exists|i: int| 0 <= i < s.len() && 'a' <= #[trigger] s[i] <= 'z') {
        Some("password must include a lowercase letter"@)
    } else if !(exists|i: int| 0 <= i < s.len() && '0' <= #[trigger] s[i] <= '9') {
        Some("password must include a number"@)
    } else if !(exists|i: int| 0 <= i < s.len() && !is_ascii_alphanumeric(#[trigger] s[i])) {
        Some("password must include a symbol"@)
    } else {
        None
    }
}

/// An ASCII letter or digit.
pub open spec fn is_ascii_alphanumeric(c: char) -> bool {
    ('A' <= c <= 'Z') || ('a' <= c <= 'z') || ('0' <= c <= '9')
}

/// Strong password policy: min 12 chars (bytes), upper, lower, digit, symbol.
pub fn validate_password(password: &str) -> (r: Result<(), String>)
    ensures
        match password_policy_violation(password.len() as nat, password@) {
            Some(reason) => r matches Err(msg) && msg@ == reason,
            None => r is Ok,
        },
{
    if password.len() < 12 {
        return Err(String::from_str("password must be at least 12 characters"));
    }
    let cs = crate::text::chars_of(password);
    let mut upper = false;
    let mut lower = false;
    let mut digit = false;
    let mut symbol = false;
    for i in 0..cs.len()
        invariant
            cs@ == password@,
            upper == exists|j: int| 0 <= j < i && 'A' <= #[trigger] cs@[j] <= 'Z',
            lower == exists|j: int| 0 <= j < i && 'a' <= #[trigger] cs@[j] <= 'z',
            digit == exists|j: int| 0 <= j < i && '0' <= #[trigger] cs@[j] <= '9',
            symbol == exists|j: int| 0 <= j < i && !is_ascii_alphanumeric(#[trigger] cs@[j]),
    {
        let c = cs[i];
        if 'A' <= c && c <= 'Z' {
            upper = true;
        }
        if 'a' <= c && c <= 'z' {
            lower = true;
        }
        if '0' <= c && c <= '9' {
            digit = true;
        }
        if !(('A' <= c && c <= 'Z') || ('a' <= c && c <= 'z') || ('0' <= c && c <= '9')) {
            symbol = true;
        }
    }
    if !upper {
        return Err(String::from_str("password must include an uppercase letter"));
    }
    if !lower {
        return Err(String::from_str("password must include a lowercase letter"));
    }
    if !digit {
        return Err(String::from_str("password must include a number"));
    }
    if !symbol {
        return Err(String::from_str("password must include a symbol"));
    }
    Ok(())
}

} // verus!
