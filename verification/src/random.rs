//! Random token generation for session keys, salts, and verification tokens.

use vstd::prelude::*;

verus! {

/// Relies on rand::random: draws a value of `T` from the thread-local
/// generator. Nothing can be promised of a random value.
pub assume_specification<T>[ rand::random::<T> ]() -> (r: T)
    where
        rand::distr::StandardUniform: rand::distr::Distribution<T>,
;

/// Relies on String::from_utf8: bytes below 128 are ASCII, every ASCII
/// sequence is valid UTF-8, and decoding maps each such byte to the
/// character with the same code point.
#[verifier::external_body]
fn ascii_string(bytes: Vec<u8>) -> (r: String)
    requires
        forall|i: int| 0 <= i < bytes@.len() ==> bytes@[i] < 128,
    ensures
        r@.len() == bytes@.len(),
        vstd::utf8::is_ascii_chars(r@),
{
    match String::from_utf8(bytes) {
        Ok(s) => s,
        Err(_) => String::new(),
    }
}

/// Returns a fresh random string of `size` ASCII characters.
///
/// Each character is drawn from the thread-local random generator and
/// folded into the ASCII range.
pub fn rand_string(size: usize) -> (r: String)
    ensures
        r@.len() == size as int,
        vstd::utf8::is_ascii_chars(r@),
{
    let mut bytes: Vec<u8> = Vec::new();
    let mut i: usize = 0;
    while i < size
        invariant
            i <= size,
            bytes@.len() == i as int,
            forall|j: int| 0 <= j < bytes@.len() ==> bytes@[j] < 128,
        decreases size - i,
    {
        let b: u8 = rand::random();
        bytes.push(b % 128);
        i = i + 1;
    }
    let r = ascii_string(bytes);
    r
}

} // verus!
