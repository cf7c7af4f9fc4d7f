//! Seed derivation and bitwise DNA crossover.
//!
//! A seed is the Blake2 digest of the SCALE encoding of (host entropy, calling
//! account, call sequence number); it is reproducible for identical inputs but
//! treated as unpredictable by every caller. Crossover combines two 16-byte
//! DNA payloads bit by bit under a mask.

use vstd::prelude::*;

verus! {

/// What `parity_scale_codec::Encode::encode` returns for the seed payload
/// `(entropy, actor, sequence)`: a function of the three values alone.
pub uninterp spec fn payload_encoding(entropy: Seq<u8>, actor: u64, sequence: u64) -> Seq<u8>;

/// What `sp_io::hashing::blake2_128` returns for the given bytes: a 16-byte
/// digest, a function of the input bytes alone.
pub uninterp spec fn blake2_128_digest(data: Seq<u8>) -> Seq<u8>;

/// The 16-byte seed derived for `actor` from host-supplied entropy and the
/// host's per-call sequence number.
pub open spec fn seed_for(entropy: Seq<u8>, actor: u64, sequence: u64) -> Seq<u8> {
    blake2_128_digest(payload_encoding(entropy, actor, sequence))
}

/// Relies on `parity_scale_codec::Encode::encode` for `(&Vec<u8>, u64, u64)`:
/// the SCALE encoding of the payload, determined by the payload alone. SCALE
/// writes a byte sequence's length as a compact `u32`, and the call panics on
/// anything longer, so longer entropy is excluded.
#[verifier::external_body]
fn encode_payload(entropy: &Vec<u8>, actor: u64, sequence: u64) -> (r: Vec<u8>)
    requires
        entropy@.len() <= u32::MAX as nat,
    ensures
        r@ == payload_encoding(entropy@, actor, sequence),
{
    parity_scale_codec::Encode::encode(&(entropy, actor, sequence))
}

/// Relies on `sp_io::hashing::blake2_128`: a 16-byte Blake2 digest of the
/// input bytes, determined by the input bytes alone.
#[verifier::external_body]
fn blake2_128(data: &Vec<u8>) -> (r: [u8; 16])
    ensures
        r@ == blake2_128_digest(data@),
{
    sp_io::hashing::blake2_128(data.as_slice())
}

/// Derive the pseudo-random 16-byte seed for one call: hash the encoding of
/// the host entropy, the calling account and the call sequence number. The
/// entropy must fit SCALE's compact `u32` length prefix.
pub fn random_value(actor: u64, entropy: &Vec<u8>, sequence: u64) -> (r: [u8; 16])
    requires
        entropy@.len() <= u32::MAX as nat,
    ensures
        r@ == seed_for(entropy@, actor, sequence),
{
    let encoded = encode_payload(entropy, actor, sequence);
    blake2_128(&encoded)
}

/// One byte of crossover: each output bit comes from `a` where the mask bit
/// is 1, and from `b` where it is 0.
pub open spec fn combine_byte(mask: u8, a: u8, b: u8) -> u8 {
    (mask & a) | (!mask & b)
}

/// Bitwise crossover of two DNA payloads under a mask, byte for byte.
pub fn combine(dna_a: &[u8; 16], dna_b: &[u8; 16], mask: &[u8; 16]) -> (r: [u8; 16])
    ensures
        forall|i: int| 0 <= i < 16 ==> r@[i] == combine_byte(mask@[i], dna_a@[i], dna_b@[i]),
{
    let mut out: [u8; 16] = [0u8; 16];
    let mut i: usize = 0;
    while i < 16
        invariant
            i <= 16,
            forall|j: int| 0 <= j < i ==> out@[j] == combine_byte(mask@[j], dna_a@[j], dna_b@[j]),
        decreases 16 - i,
    {
        out[i] = (mask[i] & dna_a[i]) | (!mask[i] & dna_b[i]);
        i = i + 1;
    }
    out
}

} // verus!
