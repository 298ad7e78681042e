//! The outside primitives the scheme rests on: SHA-256 and the system's
//! random source from `ring`, bit indexing from `bit`. Nothing in this file
//! is proved; every contract here is taken on trust from the crate it names.

use vstd::prelude::*;

verus! {

/// The SHA-256 digest of a byte string, as `ring::digest::digest` computes it
/// with `ring::digest::SHA256`.
pub uninterp spec fn sha256(data: Seq<u8>) -> Seq<u8>;

/// SHA-256 takes messages of fewer than 2^64 bits, that is fewer than this
/// many bytes.
pub const SHA256_INPUT_LIMIT: u64 = 0x2000_0000_0000_0000;

/// Calls `ring::digest::digest` with `ring::digest::SHA256` and copies the 32
/// output bytes into an array. The contract names the result `sha256` of the
/// input bytes; the call panics on inputs of `SHA256_INPUT_LIMIT` bytes or
/// more, which `requires` leaves out.
#[verifier::external_body]
pub(crate) fn sha256_digest(data: &[u8]) -> (out: [u8; 32])
    requires
        data@.len() < SHA256_INPUT_LIMIT,
    ensures
        out@ == sha256(data@),
{
    let digest = ring::digest::digest(&ring::digest::SHA256, data);
    let mut out = [0u8; 32];
    out.copy_from_slice(digest.as_ref());
    out
}

/// Whether bit `pos` of `byte` is set, bit 0 being the least significant.
pub open spec fn bit_is_set(byte: u8, pos: usize) -> bool {
    byte & (1u8 << pos) != 0
}

/// Calls `bit::BitIndex::bit` on a `u8`, which tests the byte against a mask
/// with only bit `pos` set and panics unless `pos` is below the bit length.
#[verifier::external_body]
pub(crate) fn bit_of(byte: u8, pos: usize) -> (on: bool)
    requires
        pos < 8,
    ensures
        on == bit_is_set(byte, pos),
{
    bit::BitIndex::bit(&byte, pos)
}

/// Calls `bit::BitIndex::bit_length` for `u8`: the size of the type in bytes
/// times eight.
#[verifier::external_body]
pub(crate) fn bits_per_byte() -> (n: usize)
    ensures
        n == 8,
{
    <u8 as bit::BitIndex>::bit_length()
}

/// `ring::rand::SystemRandom`, the operating system's random source. Opaque:
/// it holds no data.
#[verifier::external_type_specification]
#[verifier::external_body]
pub struct ExSystemRandom(ring::rand::SystemRandom);

/// `ring::error::Unspecified`, the error without details which the random
/// source reports.
#[verifier::external_type_specification]
#[verifier::external_body]
pub struct ExUnspecified(ring::error::Unspecified);

/// `ring::rand::SystemRandom::new` always returns a source and promises
/// nothing else.
pub assume_specification[ ring::rand::SystemRandom::new ]() -> (rng: ring::rand::SystemRandom);

/// Calls `ring::rand::SecureRandom::fill` on the 32 bytes of `dest`. The
/// bytes that come back are up to the random source, and so is whether it
/// succeeds: nothing is promised of either.
#[verifier::external_body]
pub(crate) fn fill_random(rng: &ring::rand::SystemRandom, dest: &mut [u8; 32]) -> (outcome: Result<
    (),
    ring::error::Unspecified,
>) {
    ring::rand::SecureRandom::fill(rng, &mut dest[..])
}

} // verus!
