//! Deterministic derivation of a kitty's attributes from its entropy sources.
//!
//! The sources are the block's randomness seed, the caller and the index of
//! the call within its block. They are SCALE-encoded in that order and the
//! encoding is hashed with 128-bit BLAKE2b.

use parity_scale_codec::Encode;
use vstd::prelude::*;

use crate::kitty::Kitty;

verus! {

/// The lowest `n` bytes of `x`, least significant first.
pub open spec fn le_bytes(x: nat, n: nat) -> Seq<u8>
    decreases n,
{
    if n == 0 {
        Seq::empty()
    } else {
        seq![(x % 256) as u8] + le_bytes(x / 256, (n - 1) as nat)
    }
}

/// The SCALE encoding of an optional call index: a tag byte, then the
/// index in four little-endian bytes when there is one.
pub open spec fn encode_index(index: Option<u32>) -> Seq<u8> {
    match index {
        None => seq![0u8],
        Some(i) => seq![1u8] + le_bytes(i as nat, 4),
    }
}

/// The bytes that are hashed: the seed, the caller in eight little-endian
/// bytes, and the encoded call index.
pub open spec fn payload_of(seed: Seq<u8>, caller: u64, index: Option<u32>) -> Seq<u8> {
    seed + le_bytes(caller as nat, 8) + encode_index(index)
}

/// The 128-bit BLAKE2b digest of `data`.
pub uninterp spec fn blake2_128_of(data: Seq<u8>) -> Seq<u8>;

/// The attribute vector that the entropy sources determine.
pub open spec fn dna_of(seed: Seq<u8>, caller: u64, index: Option<u32>) -> Seq<u8> {
    blake2_128_of(payload_of(seed, caller, index))
}

/// Relies on parity_scale_codec's `Encode` for the tuple
/// `([u8; 32], u64, Option<u32>)`: the fields' encodings one after another,
/// the array as its raw bytes, the integer little-endian, and the option as
/// a tag byte (0 for none, 1 for some) followed by its value.
#[verifier::external_body]
fn encode_payload(seed: &[u8; 32], caller: u64, index: Option<u32>) -> (r: Vec<u8>)
    ensures
        r@ == payload_of(seed@, caller, index),
{
    (*seed, caller, index).encode()
}

/// Relies on sp_crypto_hashing::blake2_128: the BLAKE2b digest of length 16
/// of the data.
#[verifier::external_body]
fn blake2_128(data: &Vec<u8>) -> (r: [u8; 16])
    ensures
        r@ == blake2_128_of(data@),
{
    sp_crypto_hashing::blake2_128(data.as_slice())
}

/// Derives a kitty from the block's randomness `seed`, the `caller` and the
/// `index` of the call within its block.
pub fn generate(seed: &[u8; 32], caller: u64, index: Option<u32>) -> (r: Kitty)
    ensures
        r.0@ == dna_of(seed@, caller, index),
{
    let payload = encode_payload(seed, caller, index);
    Kitty(blake2_128(&payload))
}

/// Attribute derivation is deterministic: two kitties derived from the
/// same seed, caller and call index are byte for byte the same.
pub proof fn lemma_generate_deterministic(
    seed: Seq<u8>,
    caller: u64,
    index: Option<u32>,
    k1: Kitty,
    k2: Kitty,
)
    requires
        k1.0@ == dna_of(seed, caller, index),
        k2.0@ == dna_of(seed, caller, index),
    ensures
        k1 == k2,
{
    broadcast use vstd::array::group_array_axioms;

    assert(k1.0 =~= k2.0);
}

} // verus!
