//! Argon2 password hashing for stored credentials.

use vstd::prelude::*;
use argon2::password_hash::{PasswordHasher, PasswordVerifier};
use crate::keys::b64url;

verus! {

/// The error type of the `password-hash` crate used by `argon2` (opaque here).
#[verifier::external_type_specification]
#[verifier::external_body]
pub struct ExPasswordHashError(argon2::password_hash::Error);

/// Password hashing failures (invalid params or backend errors).
#[derive(Debug)]
pub enum PasswordError {
    Hash(argon2::password_hash::Error),
}

/// The PHC string that Argon2 with default parameters produces for password
/// `plain` and the base64 salt `salt`, or `None` when hashing fails.
pub uninterp spec fn argon2_phc(plain: Seq<char>, salt: Seq<char>) -> Option<Seq<char>>;

/// Checking password `plain` against PHC string `hash`: `None` when `hash`
/// does not parse, else whether the password matches.
pub uninterp spec fn argon2_check(hash: Seq<char>, plain: Seq<char>) -> Option<bool>;

/// Whether `plain` is the password that `hash` was made from.
pub open spec fn password_matches(hash: Seq<char>, plain: Seq<char>) -> bool {
    argon2_check(hash, plain) == Some(true)
}

/// A standard-alphabet base64 digit from the URL-safe one.
pub open spec fn std_digit(c: char) -> char {
    if c == '-' {
        '+'
    } else if c == '_' {
        '/'
    } else {
        c
    }
}

/// Standard base64 of `b` without padding (the "B64" encoding of PHC
/// strings): URL-safe base64 with `+` and `/` for the last two digits.
pub open spec fn b64_std(b: Seq<u8>) -> Seq<char> {
    b64url(b).map_values(|c: char| std_digit(c))
}

/// A salt as `SaltString::generate` makes it: the B64 text of 16 bytes.
pub open spec fn generated_salt(s: Seq<char>) -> bool {
    exists|b: Seq<u8>| b.len() == 16 && #[trigger] b64_std(b) == s
}

/// A salt that Argon2 hashes with: the B64 text of 8 to 48 bytes (at most 64
/// characters, as a PHC salt must be).
pub open spec fn hashable_salt(s: Seq<char>) -> bool {
    exists|b: Seq<u8>| 8 <= b.len() <= 48 && #[trigger] b64_std(b) == s
}

/// The PHC string of an Argon2id (version 19, default parameters: 19 MiB,
/// 2 passes, 1 lane) hash with salt text `salt` and 32-byte output `out`.
pub open spec fn argon2id_phc_text(salt: Seq<char>, out: Seq<u8>) -> Seq<char> {
    "$argon2id$v=19$m=19456,t=2,p=1$"@ + salt + "$"@ + b64_std(out)
}

/// A PHC string of an Argon2id hash with default parameters, a generated
/// salt and a 32-byte output.
pub open spec fn argon2id_default_phc(h: Seq<char>) -> bool {
    exists|salt: Seq<char>, out: Seq<u8>|
        generated_salt(salt) && out.len() == 32 && #[trigger] argon2id_phc_text(salt, out) == h
}

/// Calls `SaltString::generate` with the thread-local random generator and
/// returns the salt's text: the B64 encoding of 16 random bytes (which bytes
/// is left open).
#[verifier::external_body]
fn random_salt() -> (salt: String)
    ensures
        generated_salt(salt@),
{
    argon2::password_hash::SaltString::generate(&mut rand::thread_rng()).as_str().to_string()
}

/// Calls `PasswordHasher::hash_password` of `Argon2::default()` with the
/// salt given as B64 text; the PHC string is named `argon2_phc`. The source
/// shows that hashing succeeds for a salt of 8 to 48 bytes in B64 and a
/// password of at most `u32::MAX` bytes (a character takes at most 4 bytes),
/// that the PHC string is Argon2id with version 19 and default parameters,
/// the salt text and a 32-byte output, and (as the `argon2` documentation
/// says) that a hash made this way verifies the same password.
#[verifier::external_body]
fn argon2_hash(plain: &str, salt: &str) -> (r: Result<String, argon2::password_hash::Error>)
    ensures
        match r {
            Ok(h) => argon2_phc(plain@, salt@) == Some(h@),
            Err(_) => argon2_phc(plain@, salt@) is None,
        },
        r matches Ok(h) ==> argon2_check(h@, plain@) == Some(true),
        hashable_salt(salt@) && 4 * plain@.len() <= u32::MAX ==> r is Ok,
        r matches Ok(h) ==> exists|out: Seq<u8>|
            out.len() == 32 && #[trigger] argon2id_phc_text(salt@, out) == h@,
{
    let salt = match argon2::password_hash::SaltString::from_b64(salt) {
        Ok(s) => s,
        Err(e) => return Err(e),
    };
    match argon2::Argon2::default().hash_password(plain.as_bytes(), &salt) {
        Ok(h) => Ok(h.to_string()),
        Err(e) => Err(e),
    }
}

/// Parses `hash` with `PasswordHash::new` and calls
/// `PasswordVerifier::verify_password` of `Argon2::default()`; the outcome is
/// named `argon2_check`.
#[verifier::external_body]
fn argon2_verify(hash: &str, plain: &str) -> (r: Result<bool, argon2::password_hash::Error>)
    ensures
        match r {
            Ok(b) => argon2_check(hash@, plain@) == Some(b),
            Err(_) => argon2_check(hash@, plain@) is None,
        },
{
    let parsed = match argon2::password_hash::PasswordHash::new(hash) {
        Ok(p) => p,
        Err(e) => return Err(e),
    };
    Ok(argon2::Argon2::default().verify_password(plain.as_bytes(), &parsed).is_ok())
}

/// Returns a PHC string suitable for persisting on a user record: an
/// Argon2id hash with default parameters and a fresh random salt, which
/// verifies its password. Hashing succeeds for every password of at most
/// `u32::MAX` bytes (a character takes at most 4).
pub fn hash_password(plain: &str) -> (r: Result<String, PasswordError>)
    ensures
        4 * plain@.len() <= u32::MAX ==> r is Ok,
        r matches Ok(h) ==> exists|salt: Seq<char>|
            generated_salt(salt) && #[trigger] argon2_phc(plain@, salt) == Some(h@),
        r matches Ok(h) ==> argon2id_default_phc(h@),
        r matches Ok(h) ==> password_matches(h@, plain@),
        r is Err ==> 4 * plain@.len() > u32::MAX,
{
    let salt = random_salt();
    proof {
        let b = choose|b: Seq<u8>| b.len() == 16 && #[trigger] b64_std(b) == salt@;
        assert(8 <= b.len() <= 48 && b64_std(b) == salt@);
        assert(hashable_salt(salt@));
    }
    match argon2_hash(plain, salt.as_str()) {
        Ok(h) => {
            proof {
                let out = choose|out: Seq<u8>|
                    out.len() == 32 && #[trigger] argon2id_phc_text(salt@, out) == h@;
                assert(generated_salt(salt@) && out.len() == 32 && argon2id_phc_text(salt@, out)
                    == h@);
            }
            Ok(h)
        },
        Err(e) => Err(PasswordError::Hash(e)),
    }
}

/// Constant-time verification against a PHC hash string: false when the hash
/// does not parse, else whether the password matches.
pub fn verify_password(hash: &str, plain: &str) -> (r: bool)
    ensures
        r == password_matches(hash@, plain@),
{
    match argon2_verify(hash, plain) {
        Ok(b) => b,
        Err(_) => false,
    }
}

} // verus!
