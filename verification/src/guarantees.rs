//! What the scheme guarantees, proved over the model of `scheme`: which
//! digests a signature is accepted for, what altering a signature does, and
//! that the public key is a function of the private key.
//!
//! SHA-256 is not known to be free of collisions, so the statements say
//! exactly which collision an acceptance would take rather than that there
//! is none.

use vstd::prelude::*;
use crate::lamport_utils::{PrivKey, PubKey};
use crate::primitives::sha256;
use crate::scheme::{accepts, chosen, derived_key, digest_bit, signature_of};

verus! {

/// The signature of the digest `signed` is accepted for a digest `other`
/// exactly when, at every position where the two digests differ, the two
/// secrets of the key's pair have the same SHA-256 hash.
pub proof fn lemma_accepted_digests(key: PrivKey, signed: Seq<u8>, other: Seq<u8>)
    requires
        key.wf(),
    ensures
        accepts(derived_key(key@), other, signature_of(key@, signed)) <==> (forall|p: int|
            0 <= p < 256 && digest_bit(other, p) != digest_bit(signed, p) ==> sha256(
                (#[trigger] key@[p]).0,
            ) == sha256(key@[p].1)),
{
    let public = derived_key(key@);
    let signature = signature_of(key@, signed);
    if accepts(public, other, signature) {
        assert forall|p: int|
            0 <= p < 256 && digest_bit(other, p) != digest_bit(signed, p) implies sha256(
            (#[trigger] key@[p]).0,
        ) == sha256(key@[p].1) by {
            assert(sha256(signature[p]) == chosen(public[p], digest_bit(other, p)));
        }
    }
    if forall|p: int|
        0 <= p < 256 && digest_bit(other, p) != digest_bit(signed, p) ==> sha256(
            (#[trigger] key@[p]).0,
        ) == sha256(key@[p].1) {
        assert forall|p: int| 0 <= p < 256 implies sha256(#[trigger] signature[p]) == chosen(
            public[p],
            digest_bit(other, p),
        ) by {
            let pair = key@[p];
            assert(signature[p] == chosen(pair, digest_bit(signed, p)));
        }
    }
}

/// Signing a digest with a private key and verifying the signature for the
/// same digest with the public key derived from that private key succeeds,
/// whatever the key and the digest.
pub proof fn lemma_sign_then_verify(key: PrivKey, digest: Seq<u8>)
    requires
        key.wf(),
    ensures
        accepts(derived_key(key@), digest, signature_of(key@, digest)),
{
    lemma_accepted_digests(key, digest, digest);
}

/// A signature is accepted for a digest that differs from the signed one in
/// the bit at `position` only if the two secrets of the pair at that
/// position have the same SHA-256 hash: the differing bit asks for the secret
/// that the signature did not reveal.
pub proof fn lemma_changed_digest(key: PrivKey, signed: Seq<u8>, other: Seq<u8>, position: int)
    requires
        key.wf(),
        0 <= position < 256,
        digest_bit(other, position) != digest_bit(signed, position),
    ensures
        accepts(derived_key(key@), other, signature_of(key@, signed)) ==> sha256(
            key@[position].0,
        ) == sha256(key@[position].1),
{
    lemma_accepted_digests(key, signed, other);
}

/// Replacing the element at `position` of an accepted signature leaves it
/// accepted exactly when the replacement has the same SHA-256 hash as the
/// element it replaces. Any other change to one element makes verification
/// fail.
pub proof fn lemma_changed_signature(
    public: PubKey,
    digest: Seq<u8>,
    signature: Seq<Seq<u8>>,
    position: int,
    element: Seq<u8>,
)
    requires
        public.wf(),
        0 <= position < 256,
        accepts(public@, digest, signature),
    ensures
        accepts(public@, digest, signature.update(position, element)) <==> sha256(element)
            == sha256(signature[position]),
{
    let changed = signature.update(position, element);
    assert(changed[position] == element);
    assert(sha256(signature[position]) == chosen(public@[position], digest_bit(digest, position)));
    if sha256(element) == sha256(signature[position]) {
        assert forall|p: int| 0 <= p < 256 implies sha256(#[trigger] changed[p]) == chosen(
            public@[p],
            digest_bit(digest, p),
        ) by {
            if p != position {
                assert(changed[p] == signature[p]);
            }
        }
    }
}

/// The public key depends on nothing but the private key: equal private keys
/// have equal public keys.
pub proof fn lemma_derivation_is_deterministic(first: PrivKey, second: PrivKey)
    requires
        first@ == second@,
    ensures
        derived_key(first@) == derived_key(second@),
{
}

} // verus!
