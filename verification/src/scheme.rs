//! The mathematical model of the scheme: keys, digests and signatures as
//! sequences of bytes, and what signing, key derivation and verification
//! mean over them.
//!
//! Digest bits are numbered 0 to 255: position `p` is bit `p % 8` of byte
//! `p / 8`, bit 0 of a byte being its least significant. Pair `p` of a key
//! and element `p` of a signature belong to position `p`. Signer and
//! verifier share this numbering through `digest_bit`.

use vstd::prelude::*;
use crate::primitives::{bit_is_set, sha256};

verus! {

/// The bytes of each array of a sequence.
pub open spec fn byte_strings(items: Seq<[u8; 32]>) -> Seq<Seq<u8>> {
    Seq::new(items.len(), |i: int| items[i]@)
}

/// The bytes of each half of each pair of a sequence.
pub open spec fn byte_pairs(pairs: Seq<([u8; 32], [u8; 32])>) -> Seq<(Seq<u8>, Seq<u8>)> {
    Seq::new(pairs.len(), |i: int| (pairs[i].0@, pairs[i].1@))
}

/// The digest bit at `position`.
pub open spec fn digest_bit(digest: Seq<u8>, position: int) -> bool {
    bit_is_set(digest[position / 8], (position % 8) as usize)
}

/// The half of a pair that a digest bit selects: the first for a clear bit,
/// the second for a set bit.
pub open spec fn chosen(pair: (Seq<u8>, Seq<u8>), bit: bool) -> Seq<u8> {
    if bit {
        pair.1
    } else {
        pair.0
    }
}

/// For each of the 256 positions in turn, the half of the pair at that
/// position which the digest bit at that position selects.
pub open spec fn selection(pairs: Seq<(Seq<u8>, Seq<u8>)>, digest: Seq<u8>) -> Seq<Seq<u8>> {
    Seq::new(256, |p: int| chosen(pairs[p], digest_bit(digest, p)))
}

/// The signature of `digest` under the private key `secrets`: the selected
/// secret of every pair.
pub open spec fn signature_of(secrets: Seq<(Seq<u8>, Seq<u8>)>, digest: Seq<u8>) -> Seq<Seq<u8>> {
    selection(secrets, digest)
}

/// The public key of the private key `secrets`: every secret replaced by its
/// SHA-256 hash, pair by pair and half by half.
pub open spec fn derived_key(secrets: Seq<(Seq<u8>, Seq<u8>)>) -> Seq<(Seq<u8>, Seq<u8>)> {
    Seq::new(secrets.len(), |p: int| (sha256(secrets[p].0), sha256(secrets[p].1)))
}

/// Whether the public key `hashes` accepts `signature` for `digest`: the
/// signature has 256 elements and each hashes to the published hash that the
/// digest bit at its position selects.
pub open spec fn accepts(
    hashes: Seq<(Seq<u8>, Seq<u8>)>,
    digest: Seq<u8>,
    signature: Seq<Seq<u8>>,
) -> bool {
    &&& signature.len() == 256
    &&& forall|p: int|
        0 <= p < 256 ==> sha256(#[trigger] signature[p]) == chosen(
            hashes[p],
            digest_bit(digest, p),
        )
}

/// The halves of all pairs in one sequence: pair `p` gives elements `2 * p`
/// (first half) and `2 * p + 1` (second half).
pub open spec fn flattened(pairs: Seq<(Seq<u8>, Seq<u8>)>) -> Seq<Seq<u8>> {
    Seq::new(
        2 * pairs.len(),
        |j: int|
            if j % 2 == 0 {
                pairs[j / 2].0
            } else {
                pairs[j / 2].1
            },
    )
}

/// A 32-byte secret with caller-supplied entropy mixed in: byte `j` is XORed
/// with entropy byte `(start + j) % 256`.
pub open spec fn mixed(secret: Seq<u8>, entropy: Seq<u8>, start: int) -> Seq<u8> {
    Seq::new(32, |j: int| secret[j] ^ entropy[(start + j) % 256])
}

} // verus!
