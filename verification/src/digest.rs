//! Content fingerprinting of response bytes.

use vstd::prelude::*;
use crate::hex::{hex_of, to_hex};

verus! {

/// The SHA-256 digest of a byte sequence, as the sha2 crate computes it:
/// a function of the input bytes alone.
pub uninterp spec fn sha256_of(data: Seq<u8>) -> Seq<u8>;

/// The content fingerprint of a byte sequence: lowercase hex of its
/// SHA-256 digest.
pub open spec fn sha256_hex_of(data: Seq<u8>) -> Seq<char> {
    hex_of(sha256_of(data))
}

/// Relies on sha2::Sha256 (through its Digest trait): returns the SHA-256
/// digest of the input bytes, 32 bytes long and a function of the input
/// alone.
#[verifier::external_body]
fn sha256_digest(data: &Vec<u8>) -> (r: Vec<u8>)
    ensures
        r@ == sha256_of(data@),
        r@.len() == 32,
{
    <sha2::Sha256 as sha2::Digest>::digest(data.as_slice()).to_vec()
}

/// Computes the content fingerprint of a byte sequence.
pub fn sha256_hex(data: &Vec<u8>) -> (r: String)
    ensures
        r@ == sha256_hex_of(data@),
        r@.len() == 64,
{
    let d = sha256_digest(data);
    to_hex(&d)
}

/// The fingerprint is deterministic: equal byte sequences always carry
/// equal fingerprints.
pub proof fn lemma_fingerprint_deterministic(a: Seq<u8>, b: Seq<u8>)
    requires
        a == b,
    ensures
        sha256_hex_of(a) == sha256_hex_of(b),
{
}

} // verus!
