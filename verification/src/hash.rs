//! SHA-256 of a string, as a number.

use vstd::prelude::*;
use vstd::arithmetic::power::{lemma_pow_multiplies, pow};
use num::BigUint;
use sha2::{Digest, Sha256};
use crate::number::{be_value, big_value};

verus! {

/// The SHA-256 digest of a sequence of bytes.
pub uninterp spec fn sha256_digest(data: Seq<u8>) -> Seq<u8>;

/// The SHA-256 digest of the UTF-8 encoding of a text, read as a number with
/// the most significant byte first.
pub open spec fn hash_value(text: Seq<char>) -> nat {
    be_value(sha256_digest(vstd::utf8::encode_utf8(text)))
}

/// `Sha256::digest` computes the SHA-256 digest of its argument in one call.
/// The digest has 32 bytes.
#[verifier::external_body]
pub(crate) fn sha256(data: &[u8]) -> (digest: Vec<u8>)
    ensures
        digest@ == sha256_digest(data@),
        digest@.len() == 32,
{
    Sha256::digest(data).to_vec()
}

/// A number of `n` bytes is below `256^n`.
pub proof fn lemma_be_value_bound(bytes: Seq<u8>)
    ensures
        be_value(bytes) < pow(256, bytes.len()),
    decreases bytes.len(),
{
    reveal(pow);
    if bytes.len() > 0 {
        lemma_be_value_bound(bytes.drop_last());
    }
}

/// Hashes a string with SHA-256 and reads the digest as a big-endian number.
/// The number has at most 256 bits.
pub fn digest(input: &String) -> (n: BigUint)
    ensures
        big_value(n) == hash_value(input@),
        big_value(n) < pow(2, 256),
{
    let arr = sha256(input.as_str().as_bytes());
    proof {
        lemma_be_value_bound(arr@);
        lemma_pow_multiplies(2, 8, 32);
        assert(pow(2, 8) == 256) by {
            reveal_with_fuel(pow, 9);
        }
    }
    BigUint::from_bytes_be(arr.as_slice())
}

} // verus!
