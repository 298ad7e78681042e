//! Lamport one-time signatures over SHA-256.
//!
//! A private key is 256 pairs of 32-byte secrets, one pair per bit of a
//! 256-bit digest. The public key is the SHA-256 hash of every secret. A
//! signature reveals, for every digest bit, the secret of that pair which the
//! bit selects; a verifier hashes each revealed secret and compares it with
//! the published hash that the same bit selects.
//!
//! A private key must sign at most one digest: two signatures under one key
//! reveal both secrets of every pair in which the digests differ.

pub mod guarantees;
pub mod lamport_utils;
pub mod primitives;
pub mod scheme;
