//! Integrity verification: SHA-256 digests of byte sequences, compared
//! in lowercase hexadecimal.

use vstd::prelude::*;
use sha2::Digest;

use crate::hex::{hex_of, to_hex};

verus! {

/// The SHA-256 digest of a byte sequence.
///
/// The digest is a fixed function of the input bytes alone; nothing
/// further is assumed about its value.
pub uninterp spec fn sha256_of(bytes: Seq<u8>) -> Seq<u8>;

/// Relies on sha2's `Sha256::digest`: computes the SHA-256 digest of the
/// input, 32 bytes long, a function of the input bytes alone.
#[verifier::external_body]
fn sha256(bytes: &Vec<u8>) -> (r: Vec<u8>)
    ensures
        r@ == sha256_of(bytes@),
        r@.len() == 32,
{
    sha2::Sha256::digest(bytes.as_slice()).to_vec()
}

/// The check applied to every download before it may be installed: the
/// downloaded bytes' SHA-256 digest, rendered as lowercase hexadecimal,
/// must equal the expected digest exactly.
pub open spec fn spec_digest_matches(bytes: Seq<u8>, expected: Seq<char>) -> bool {
    hex_of(sha256_of(bytes)) == expected
}

/// The SHA-256 digest of `bytes`, rendered as lowercase hexadecimal.
pub fn sha256_hex(bytes: &Vec<u8>) -> (r: String)
    ensures
        r@ == hex_of(sha256_of(bytes@)),
{
    let d = sha256(bytes);
    to_hex(&d)
}

/// Does the SHA-256 digest of `bytes`, in lowercase hexadecimal, read
/// exactly `expected`?
pub fn digest_matches(bytes: &Vec<u8>, expected: &str) -> (r: bool)
    ensures
        r == spec_digest_matches(bytes@, expected@),
{
    let h = sha256_hex(bytes);
    h.eq(&expected.to_owned())
}

} // verus!
