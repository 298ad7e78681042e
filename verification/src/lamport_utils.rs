//! Keys, signing and verification.

use vstd::prelude::*;
use crate::primitives::{
    bit_of, bits_per_byte, fill_random, sha256, sha256_digest, SHA256_INPUT_LIMIT,
};
use crate::scheme::{
    accepts, byte_pairs, byte_strings, chosen, derived_key, digest_bit, flattened, mixed,
    selection, signature_of,
};
use ring::error::Unspecified;
use ring::rand::SystemRandom;

verus! {

/// Walks the 256 digest bits in order, byte by byte and within a byte from
/// the least significant bit up, and picks from the pair at each position the
/// half that the bit selects. Signing and verification both go through here.
fn select(pairs: &Vec<([u8; 32], [u8; 32])>, digest: &[u8; 32]) -> (picked: Vec<[u8; 32]>)
    requires
        pairs.len() == 256,
    ensures
        picked.len() == 256,
        byte_strings(picked@) == selection(byte_pairs(pairs@), digest@),
{
    let width = bits_per_byte();
    let mut counter: usize = 0;
    let mut picked: Vec<[u8; 32]> = Vec::with_capacity(256);
    let mut index: usize = 0;
    while index < 32
        invariant
            width == 8,
            pairs.len() == 256,
            index <= 32,
            counter == 8 * index,
            picked.len() == counter,
            forall|p: int|
                0 <= p < counter ==> (#[trigger] picked[p])@ == chosen(
                    byte_pairs(pairs@)[p],
                    digest_bit(digest@, p),
                ),
        decreases 32 - index,
    {
        let val = digest[index];
        let mut i: usize = 0;
        while i < width
            invariant
                width == 8,
                pairs.len() == 256,
                index < 32,
                i <= 8,
                val == digest@[index as int],
                counter == 8 * index + i,
                picked.len() == counter,
                forall|p: int|
                    0 <= p < counter ==> (#[trigger] picked[p])@ == chosen(
                        byte_pairs(pairs@)[p],
                        digest_bit(digest@, p),
                    ),
            decreases 8 - i,
        {
            let is_on = bit_of(val, i);
            let t = pairs[counter];
            let half = if is_on {
                t.1
            } else {
                t.0
            };
            picked.push(half);
            counter += 1;
            i += 1;
        }
        index += 1;
    }
    picked
}

/// A private key: 256 pairs of 32-byte secrets, pair `p` for digest bit `p`.
/// Its view is the pairs as byte strings.
///
/// A key is one-time: sign at most one digest with it.
#[derive(Debug)]
pub struct PrivKey {
    tuples: Vec<([u8; 32], [u8; 32])>,
}

impl View for PrivKey {
    type V = Seq<(Seq<u8>, Seq<u8>)>;

    closed spec fn view(&self) -> Seq<(Seq<u8>, Seq<u8>)> {
        byte_pairs(self.tuples@)
    }
}

impl PrivKey {
    /// Every key holds exactly 256 pairs.
    #[verifier::type_invariant]
    pub open spec fn wf(&self) -> bool {
        self@.len() == 256
    }

    /// Makes a key of the given pairs, in their order. There must be exactly
    /// 256 of them.
    pub fn from_pairs(pairs: Vec<([u8; 32], [u8; 32])>) -> (key: Option<PrivKey>)
        ensures
            key is Some <==> pairs.len() == 256,
            key matches Some(k) ==> k@ == byte_pairs(pairs@) && k.wf(),
    {
        if pairs.len() == 256 {
            Some(PrivKey { tuples: pairs })
        } else {
            None
        }
    }

    /// The pair of secrets for digest bit `i`.
    pub fn get_tuple(&self, i: usize) -> (pair: ([u8; 32], [u8; 32]))
        requires
            i < 256,
        ensures
            (pair.0@, pair.1@) == self@[i as int],
    {
        proof {
            use_type_invariant(self);
        }
        self.tuples[i]
    }

    /// The number of pairs in a key.
    pub fn tuples_amount(&self) -> (amount: usize)
        ensures
            amount == 256,
            amount == self@.len(),
    {
        proof {
            use_type_invariant(self);
        }
        256
    }

    /// Signs the digest `h`: element `p` of the signature is the secret that
    /// digest bit `p` selects from pair `p`.
    pub fn sign(&self, h: &[u8; 32]) -> (signature: Vec<[u8; 32]>)
        ensures
            signature.len() == 256,
            byte_strings(signature@) == signature_of(self@, h@),
    {
        proof {
            use_type_invariant(self);
        }
        select(&self.tuples, h)
    }
}

/// Whether two 32-byte values are equal byte for byte.
fn same_bytes(a: &[u8; 32], b: &[u8; 32]) -> (same: bool)
    ensures
        same == (a@ == b@),
{
    let mut same = true;
    let mut i: usize = 0;
    while i < 32
        invariant
            i <= 32,
            same == (forall|j: int| 0 <= j < i ==> a@[j] == b@[j]),
        decreases 32 - i,
    {
        if a[i] != b[i] {
            same = false;
        }
        i += 1;
    }
    proof {
        if same {
            assert(a@ =~= b@);
        }
    }
    same
}

/// A public key: 256 pairs of SHA-256 hashes, pair `p` holding the hashes of
/// the two secrets of pair `p` of the private key it was derived from. Its
/// view is the pairs as byte strings.
#[derive(Debug)]
pub struct PubKey {
    hashes: Vec<([u8; 32], [u8; 32])>,
}

impl View for PubKey {
    type V = Seq<(Seq<u8>, Seq<u8>)>;

    closed spec fn view(&self) -> Seq<(Seq<u8>, Seq<u8>)> {
        byte_pairs(self.hashes@)
    }
}

impl PubKey {
    /// Every key holds exactly 256 pairs.
    #[verifier::type_invariant]
    pub open spec fn wf(&self) -> bool {
        self@.len() == 256
    }

    /// The pair of hashes for digest bit `i`.
    pub fn get_tuple(&self, i: usize) -> (pair: ([u8; 32], [u8; 32]))
        requires
            i < 256,
        ensures
            (pair.0@, pair.1@) == self@[i as int],
    {
        proof {
            use_type_invariant(self);
        }
        self.hashes[i]
    }

    /// All 512 hashes in one sequence: for each pair in turn its first hash,
    /// then its second.
    pub fn flat_hashes(&self) -> (flat: Vec<[u8; 32]>)
        ensures
            flat.len() == 512,
            byte_strings(flat@) == flattened(self@),
    {
        proof {
            use_type_invariant(self);
        }
        let mut flat: Vec<[u8; 32]> = Vec::new();
        let mut i: usize = 0;
        while i < 256
            invariant
                self@.len() == 256,
                i <= 256,
                flat.len() == 2 * i,
                forall|j: int|
                    0 <= j < 2 * i ==> (#[trigger] flat[j])@ == flattened(self@)[j],
            decreases 256 - i,
        {
            let (a, b) = self.get_tuple(i);
            flat.push(a);
            flat.push(b);
            i += 1;
        }
        flat
    }

    /// Whether `hashes` are, position by position, the published hashes that
    /// the bits of `digest` select from this key.
    pub fn expects(&self, digest: &[u8; 32], hashes: &Vec<[u8; 32]>) -> (met: bool)
        ensures
            met == (byte_strings(hashes@) == selection(self@, digest@)),
    {
        proof {
            use_type_invariant(self);
        }
        if hashes.len() != 256 {
            assert(byte_strings(hashes@).len() != selection(self@, digest@).len());
            return false;
        }
        let expected = select(&self.hashes, digest);
        let mut met = true;
        let mut p: usize = 0;
        while p < 256
            invariant
                p <= 256,
                hashes.len() == 256,
                expected.len() == 256,
                met == (forall|q: int| 0 <= q < p ==> hashes[q]@ == expected[q]@),
            decreases 256 - p,
        {
            if !same_bytes(&hashes[p], &expected[p]) {
                met = false;
            }
            p += 1;
        }
        proof {
            if met {
                assert(byte_strings(hashes@) =~= byte_strings(expected@));
            } else {
                let q = choose|q: int| 0 <= q < 256 && hashes[q]@ != expected[q]@;
                assert(byte_strings(hashes@)[q] != byte_strings(expected@)[q]);
            }
        }
        met
    }

    /// Verifies `signature` for `digest`: true exactly when the signature
    /// has 256 elements and each of them hashes to the published hash that
    /// the digest bit at its position selects. A signature of any other
    /// length is rejected.
    pub fn verify(&self, digest: &[u8; 32], signature: &Vec<[u8; 32]>) -> (valid: bool)
        ensures
            valid == accepts(self@, digest@, byte_strings(signature@)),
    {
        if signature.len() != 256 {
            return false;
        }
        let mut hashes: Vec<[u8; 32]> = Vec::with_capacity(256);
        let mut p: usize = 0;
        while p < 256
            invariant
                p <= 256,
                signature.len() == 256,
                hashes.len() == p,
                forall|q: int| 0 <= q < p ==> (#[trigger] hashes[q])@ == sha256(signature[q]@),
            decreases 256 - p,
        {
            hashes.push(hash(&signature[p]));
            p += 1;
        }
        let valid = self.expects(digest, &hashes);
        proof {
            let sig = byte_strings(signature@);
            let wanted = selection(self@, digest@);
            if valid {
                assert forall|q: int| 0 <= q < 256 implies sha256(#[trigger] sig[q]) == chosen(
                    self@[q],
                    digest_bit(digest@, q),
                ) by {
                    assert(byte_strings(hashes@)[q] == wanted[q]);
                }
            } else if accepts(self@, digest@, sig) {
                assert forall|q: int| 0 <= q < 256 implies byte_strings(hashes@)[q]
                    == wanted[q] by {
                    assert(sha256(sig[q]) == wanted[q]);
                }
                assert(byte_strings(hashes@) =~= wanted);
            }
        }
        valid
    }
}

/// Derives the public key of a private key: the SHA-256 hash of each secret,
/// in the secrets' order.
pub fn derive_pub_key(priv_key: &PrivKey) -> (pub_key: PubKey)
    ensures
        pub_key@ == derived_key(priv_key@),
        pub_key.wf(),
{
    let amount = priv_key.tuples_amount();
    let mut hashes: Vec<([u8; 32], [u8; 32])> = Vec::with_capacity(amount);
    let mut i: usize = 0;
    while i < amount
        invariant
            amount == 256,
            priv_key@.len() == 256,
            i <= 256,
            hashes.len() == i,
            forall|p: int|
                0 <= p < i ==> (#[trigger] hashes[p]).0@ == sha256(priv_key@[p].0)
                    && hashes[p].1@ == sha256(priv_key@[p].1),
        decreases 256 - i,
    {
        let (sec_a, sec_b) = priv_key.get_tuple(i);
        let hash_a = hash(&sec_a);
        let hash_b = hash(&sec_b);
        hashes.push((hash_a, hash_b));
        i += 1;
    }
    proof {
        assert(byte_pairs(hashes@) =~= derived_key(priv_key@));
    }
    PubKey { hashes }
}

/// The SHA-256 digest of `data`, the value that is signed in place of a
/// message.
pub fn hash(data: &[u8]) -> (digest: [u8; 32])
    requires
        data@.len() < SHA256_INPUT_LIMIT,
    ensures
        digest@ == sha256(data@),
{
    sha256_digest(data)
}

/// Why a key could not be generated.
#[derive(Debug, Clone, Copy, PartialEq, Eq, Structural)]
pub enum KeyGenError {
    /// The system's random source could not supply secure random bytes.
    RandomnessUnavailable,
}

/// What one draw from the random source yields: the filled buffer when the
/// source reported success, `RandomnessUnavailable` when it reported failure.
/// The buffer of a failed draw is never used.
pub fn drawn(outcome: Result<(), Unspecified>, buffer: [u8; 32]) -> (secret: Result<
    [u8; 32],
    KeyGenError,
>)
    ensures
        outcome is Ok ==> secret == Ok::<[u8; 32], KeyGenError>(buffer),
        outcome is Err ==> secret == Err::<[u8; 32], KeyGenError>(
            KeyGenError::RandomnessUnavailable,
        ),
{
    match outcome {
        Ok(_) => Ok(buffer),
        Err(_) => Err(KeyGenError::RandomnessUnavailable),
    }
}

/// Draws the two secrets of one pair, each with a draw of its own, and stops
/// at the first draw that fails.
fn generate_pair(sr: &SystemRandom) -> (pair: Result<([u8; 32], [u8; 32]), KeyGenError>) {
    let mut a = [0u8; 32];
    let mut b = [0u8; 32];
    let filled_a = fill_random(sr, &mut a);
    let a = match drawn(filled_a, a) {
        Ok(secret) => secret,
        Err(e) => {
            return Err(e);
        },
    };
    let filled_b = fill_random(sr, &mut b);
    let b = match drawn(filled_b, b) {
        Ok(secret) => secret,
        Err(e) => {
            return Err(e);
        },
    };
    Ok((a, b))
}

/// Mixes caller-supplied entropy into the pair of secrets at `position` of a
/// key. The key's 512 secrets, in order, are taken as one stream of bytes
/// and the 256 entropy bytes, repeated, are XORed onto it: the first secret
/// of pair `position` starts at stream offset `64 * position`, the second 32
/// bytes later.
pub fn mix_entropy(pair: ([u8; 32], [u8; 32]), entropy: &[u8; 256], position: usize) -> (out: (
    [u8; 32],
    [u8; 32],
))
    requires
        position < 256,
    ensures
        out.0@ == mixed(pair.0@, entropy@, 64 * position),
        out.1@ == mixed(pair.1@, entropy@, 64 * position + 32),
{
    let (mut a, mut b) = pair;
    let start: usize = 64 * position;
    let mut j: usize = 0;
    while j < 32
        invariant
            j <= 32,
            start == 64 * position,
            position < 256,
            forall|k: int| 0 <= k < j ==> a@[k] == pair.0@[k] ^ entropy@[(start + k) % 256],
            forall|k: int| j <= k < 32 ==> a@[k] == pair.0@[k],
            forall|k: int| 0 <= k < j ==> b@[k] == pair.1@[k] ^ entropy@[(start + 32 + k) % 256],
            forall|k: int| j <= k < 32 ==> b@[k] == pair.1@[k],
        decreases 32 - j,
    {
        a[j] = a[j] ^ entropy[(start + j) % 256];
        b[j] = b[j] ^ entropy[(start + 32 + j) % 256];
        j += 1;
    }
    proof {
        assert(a@ =~= mixed(pair.0@, entropy@, 64 * position));
        assert(b@ =~= mixed(pair.1@, entropy@, 64 * position + 32));
    }
    (a, b)
}

/// Generates a private key from the system's random source: 512 secrets,
/// each from a draw of its own. Fails with `RandomnessUnavailable` as soon as
/// one draw fails; no weaker source is tried.
pub fn gen_secret_key() -> (key: Result<PrivKey, KeyGenError>)
    ensures
        key matches Ok(k) ==> k.wf(),
{
    let sr = SystemRandom::new();
    let mut pairs: Vec<([u8; 32], [u8; 32])> = Vec::with_capacity(256);
    let mut i: usize = 0;
    while i < 256
        invariant
            i <= 256,
            pairs.len() == i,
        decreases 256 - i,
    {
        match generate_pair(&sr) {
            Ok(pair) => {
                pairs.push(pair);
            },
            Err(e) => {
                return Err(e);
            },
        }
        i += 1;
    }
    Ok(PrivKey { tuples: pairs })
}

/// Generates a private key as `gen_secret_key` does and mixes the caller's
/// entropy into it: every pair is drawn from the system's random source and
/// then passed through `mix_entropy` at its position. The entropy adds to
/// the random draws and never replaces them, so a failing random source
/// still fails the generation.
pub fn gen_secret_key_with_input(entropy: [u8; 256]) -> (key: Result<PrivKey, KeyGenError>)
    ensures
        key matches Ok(k) ==> k.wf(),
{
    let sr = SystemRandom::new();
    let mut pairs: Vec<([u8; 32], [u8; 32])> = Vec::with_capacity(256);
    let mut i: usize = 0;
    while i < 256
        invariant
            i <= 256,
            pairs.len() == i,
        decreases 256 - i,
    {
        match generate_pair(&sr) {
            Ok(pair) => {
                pairs.push(mix_entropy(pair, &entropy, i));
            },
            Err(e) => {
                return Err(e);
            },
        }
        i += 1;
    }
    Ok(PrivKey { tuples: pairs })
}

} // verus!
