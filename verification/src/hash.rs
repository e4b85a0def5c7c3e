//! Password hashing with Argon2 and a fresh random salt.

use vstd::prelude::*;
use vstd::utf8::encode_utf8;
use crate::errors::{Error, ErrorType, Result};

verus! {

/// The PHC string that Argon2 (its default parameters: Argon2id, version
/// 19) writes for a password and a B64 salt, or `None` where it refuses
/// them.
pub uninterp spec fn argon2_phc(password: Seq<char>, salt: Seq<char>) -> Option<Seq<char>>;

/// A character of the standard Base64 alphabet.
pub open spec fn is_b64_char(c: char) -> bool {
    ('A' <= c <= 'Z') || ('a' <= c <= 'z') || ('0' <= c <= '9') || c == '+' || c == '/'
}

/// Whether `s` is the unpadded standard Base64 text of 16 bytes: 22
/// characters of the alphabet, the last of which carries two bits and four
/// zero bits (so it is one of `A`, `Q`, `g`, `w`).
pub open spec fn is_salt_text(s: Seq<char>) -> bool {
    &&& s.len() == 22
    &&& forall|i: int| 0 <= i < s.len() ==> is_b64_char(#[trigger] s[i])
    &&& (s[21] == 'A' || s[21] == 'Q' || s[21] == 'g' || s[21] == 'w')
}

/// Whether `h` is the PHC string of an Argon2id hash (version 19, Argon2's
/// default costs: 19456 KiB of memory, 2 passes, 1 lane) made with the B64
/// salt `salt`: the algorithm, version and costs, the salt, and a digest of
/// 32 bytes as 43 B64 characters, each part after a `$`.
pub open spec fn is_argon2id_phc(h: Seq<char>, salt: Seq<char>) -> bool {
    exists|digest: Seq<char>|
        digest.len() == 43 && (forall|i: int| 0 <= i < digest.len() ==> is_b64_char(#[trigger] digest[i]))
            && h == "$argon2id$v=19$m=19456,t=2,p=1$"@ + salt + "$"@ + digest
}

/// The largest password, in UTF-8 bytes, that Argon2 accepts.
pub open spec fn max_password_bytes() -> nat {
    0xFFFF_FFFF
}

/// A fresh salt: `password_hash::SaltString::generate` with the thread's
/// random number generator (`rand::thread_rng`), as its B64 text.  The
/// source encodes 16 random bytes as unpadded standard Base64, which is
/// what is claimed; the bytes themselves are random and left unsaid.
#[verifier::external_body]
fn random_salt() -> (salt: String)
    ensures
        is_salt_text(salt@),
{
    argon2::password_hash::SaltString::generate(&mut rand::thread_rng()).as_str().to_owned()
}

/// `PasswordHash::generate(Argon2::default(), password, salt)` written as a
/// PHC string, after `SaltString::from_b64(salt)`; on failure, the display
/// text of the `password_hash` error.  Its success and result are claimed
/// to be a function of the password and the salt (`argon2_phc`), and it is
/// claimed to succeed for a salt that is the B64 text of 16 bytes and a
/// password of at most `0xFFFF_FFFF` bytes (Argon2's only other refusals
/// are of the salt's length and characters).  Its source writes the hash
/// as `$argon2id$v=19$m=19456,t=2,p=1$`, the salt, `$` and the 32-byte
/// digest in B64, which is claimed too; the digest itself and the text of
/// the error are left unsaid.
#[verifier::external_body]
fn argon2_hash(password: &str, salt: &str) -> (r: core::result::Result<String, String>)
    ensures
        match r {
            Ok(h) => argon2_phc(password@, salt@) == Some(h@) && is_argon2id_phc(h@, salt@),
            Err(_) => argon2_phc(password@, salt@) is None,
        },
        is_salt_text(salt@) && encode_utf8(password@).len() <= max_password_bytes() ==> r is Ok,
{
    let salt = argon2::password_hash::SaltString::from_b64(salt).map_err(|e| e.to_string())?;
    argon2::PasswordHash::generate(argon2::Argon2::default(), password, salt.as_salt())
        .map(|h| h.to_string())
        .map_err(|e| e.to_string())
}

/// Where a failed hashing is reported from.
pub open spec fn hash_location() -> Seq<char> {
    "hash_password"@
}

/// Whether `e` is the error of a failed hashing: a generic error `failed
/// to generate password hash: ...` raised at `hash_password`.
pub open spec fn is_hash_failure(e: Error) -> bool {
    &&& e.trace@.len() == 1
    &&& e.trace@[0]@ == hash_location()
    &&& e.typ matches ErrorType::Generic(m) && exists|detail: Seq<char>|
        m@ == "failed to generate password hash: "@ + detail
}

/// Hashes a password with Argon2 and the given B64 salt, giving its PHC
/// string; a refusal is a generic error `failed to generate password hash:
/// ...` raised at `hash_password`.
pub fn hash_password_with_salt(password: &str, salt: &str) -> (r: Result<String>)
    ensures
        match argon2_phc(password@, salt@) {
            Some(h) => r matches Ok(s) && s@ == h,
            None => r matches Err(e) && is_hash_failure(e),
        },
        r matches Ok(h) ==> is_argon2id_phc(h@, salt@),
        is_salt_text(salt@) && encode_utf8(password@).len() <= max_password_bytes() ==> r is Ok,
{
    match argon2_hash(password, salt) {
        Ok(h) => Ok(h),
        Err(detail) => {
            let mut m = "failed to generate password hash: ".to_owned();
            m.append(detail.as_str());
            Err(Error::generic(m, "hash_password"))
        },
    }
}

/// Hashes a password with Argon2 and a fresh random salt, giving its PHC
/// string, which holds that salt.  It succeeds for every password of at
/// most `0xFFFF_FFFF` UTF-8 bytes; a longer one is refused with a generic
/// error `failed to generate password hash: ...` raised at `hash_password`.
pub fn hash_password(password: String) -> (r: Result<String>)
    ensures
        encode_utf8(password@).len() <= max_password_bytes() ==> r is Ok,
        match r {
            Ok(h) => exists|salt: Seq<char>|
                is_salt_text(salt) && argon2_phc(password@, salt) == Some(h@) && is_argon2id_phc(h@, salt),
            Err(e) => is_hash_failure(e) && exists|salt: Seq<char>|
                is_salt_text(salt) && argon2_phc(password@, salt) is None,
        },
{
    let salt = random_salt();
    hash_password_with_salt(password.as_str(), salt.as_str())
}

} // verus!
