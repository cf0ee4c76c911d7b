//! One-way credential hashing.
//!
//! Passwords are stored only as self-describing encoded digests: algorithm
//! parameters, a fresh random salt, and the derived hash. Verification
//! re-derives the hash from the presented plaintext and never decodes a
//! digest back to a password.

use vstd::prelude::*;
use vstd::string::StringSliceAdditionalSpecFns;
use vstd::utf8::is_ascii_chars;
use crate::error::Error;
use crate::random::rand_string;

verus! {

/// The encoded digest that the hashing backend derives from this password
/// and salt.
pub uninterp spec fn argon_hash_of(password: Seq<char>, salt: Seq<char>) -> Seq<char>;

/// Whether this encoded digest verifies against this password.
pub uninterp spec fn argon_matches(digest: Seq<char>, password: Seq<char>) -> bool;

/// Whether `digest` is the encoded digest of `password` under some salt.
pub open spec fn is_digest_of(digest: Seq<char>, password: Seq<char>) -> bool {
    exists|salt: Seq<char>| digest == #[trigger] argon_hash_of(password, salt)
}

/// The longest password, in bytes, that the hashing backend accepts.
pub const MAX_PASSWORD_BYTES: u64 = 0xFFFF_FFFF;

/// Relies on argon2::hash_encoded with the default configuration: the
/// encoded digest depends on the password and the salt alone, and a digest
/// just derived from a password verifies against that same password. With
/// an ASCII salt of eight to `MAX_PASSWORD_BYTES` characters the call
/// fails only for a password longer than `MAX_PASSWORD_BYTES` bytes.
#[verifier::external_body]
fn argon2_hash(password: &str, salt: &str) -> (r: Option<String>)
    requires
        salt@.len() >= 8,
        salt@.len() <= MAX_PASSWORD_BYTES,
        is_ascii_chars(salt@),
    ensures
        match r {
            Some(h) => h@ == argon_hash_of(password@, salt@) && argon_matches(h@, password@)
                && password.spec_bytes().len() <= MAX_PASSWORD_BYTES,
            None => password.spec_bytes().len() > MAX_PASSWORD_BYTES,
        },
{
    argon2::hash_encoded(password.as_bytes(), salt.as_bytes(), &argon2::Config::default()).ok()
}

/// Relies on argon2::verify_encoded: whether a digest verifies against a
/// password depends on the two arguments alone, and a malformed digest
/// fails instead of panicking.
#[verifier::external_body]
fn argon2_verify(digest: &str, password: &str) -> (r: bool)
    ensures
        r == argon_matches(digest@, password@),
{
    match argon2::verify_encoded(digest, password.as_bytes()) {
        Ok(b) => b,
        Err(_) => false,
    }
}

/// Derives the encoded digest of `password` under a fresh random salt of
/// `salt_len` ASCII characters.
///
/// Fails with [`Error::HashingFailure`] exactly when the password is longer
/// than the hashing backend accepts.
pub(crate) fn hash_salted(password: &str, salt_len: usize) -> (r: Result<String, Error>)
    requires
        salt_len >= 8,
        salt_len <= MAX_PASSWORD_BYTES,
    ensures
        match r {
            Ok(h) => is_digest_of(h@, password@) && argon_matches(h@, password@)
                && password.spec_bytes().len() <= MAX_PASSWORD_BYTES,
            Err(e) => e == Error::HashingFailure && password.spec_bytes().len()
                > MAX_PASSWORD_BYTES,
        },
{
    let salt = rand_string(salt_len);
    match argon2_hash(password, salt.as_str()) {
        Some(h) => {
            proof {
                assert(h@ == argon_hash_of(password@, salt@));
            }
            Ok(h)
        },
        None => Err(Error::HashingFailure),
    }
}

/// Derives the encoded digest of `password` under a fresh random salt.
///
/// The digest verifies against `password`: for every password `p` accepted
/// by the backend, `verify_password(&hash_password(p).unwrap(), p)` is true.
/// Fails with [`Error::HashingFailure`] exactly when the password is longer
/// than the hashing backend accepts.
pub fn hash_password(password: &str) -> (r: Result<String, Error>)
    ensures
        match r {
            Ok(h) => is_digest_of(h@, password@) && argon_matches(h@, password@)
                && password.spec_bytes().len() <= MAX_PASSWORD_BYTES,
            Err(e) => e == Error::HashingFailure && password.spec_bytes().len()
                > MAX_PASSWORD_BYTES,
        },
{
    hash_salted(password, 10)
}

/// Checks `password` against an encoded digest.
///
/// Returns exactly whether the digest verifies against the password; a
/// malformed digest verifies against nothing.
pub fn verify_password(digest: &str, password: &str) -> (r: bool)
    ensures
        r == argon_matches(digest@, password@),
{
    argon2_verify(digest, password)
}

} // verus!
