use lamport_signatures::lamport_utils::{
    derive_pub_key, drawn, gen_secret_key, gen_secret_key_with_input, hash, mix_entropy,
    KeyGenError, PrivKey,
};

fn numbered_pairs(count: usize) -> Vec<([u8; 32], [u8; 32])> {
    let mut pairs: Vec<([u8; 32], [u8; 32])> = Vec::new();
    let mut p: usize = 0;
    while p < count {
        let mut a = [0x11u8; 32];
        let mut b = [0xeeu8; 32];
        a[0] = (p % 256) as u8;
        b[0] = (p % 256) as u8;
        pairs.push((a, b));
        p += 1;
    }
    pairs
}

fn all_secrets(key: &PrivKey) -> Vec<[u8; 32]> {
    let mut secrets: Vec<[u8; 32]> = Vec::new();
    let mut p: usize = 0;
    while p < key.tuples_amount() {
        let (a, b) = key.get_tuple(p);
        secrets.push(a);
        secrets.push(b);
        p += 1;
    }
    secrets
}

#[test]
fn generated_key_has_256_pairs() {
    let key = gen_secret_key().unwrap();
    assert_eq!(key.tuples_amount(), 256);
    assert_eq!(all_secrets(&key).len(), 512);
}

#[test]
fn lengths_of_keys_and_signatures() {
    let key = gen_secret_key().unwrap();
    let public = derive_pub_key(&key);
    assert_eq!(key.tuples_amount(), 256);
    assert_eq!(public.flat_hashes().len(), 512);
    assert_eq!(key.sign(&[0u8; 32]).len(), 256);
    assert_eq!(key.sign(&hash(b"any")).len(), 256);
    let known = PrivKey::from_pairs(numbered_pairs(256)).unwrap();
    assert_eq!(known.tuples_amount(), 256);
    assert_eq!(derive_pub_key(&known).flat_hashes().len(), 512);
    assert_eq!(known.sign(&[0xffu8; 32]).len(), 256);
}

#[test]
fn secrets_of_one_generated_key_are_distinct() {
    let key = gen_secret_key().unwrap();
    let mut secrets = all_secrets(&key);
    secrets.sort();
    secrets.dedup();
    assert_eq!(secrets.len(), 512);
}

#[test]
fn two_generated_keys_share_no_secret() {
    let first = gen_secret_key().unwrap();
    let second = gen_secret_key().unwrap();
    let mine = all_secrets(&first);
    let theirs = all_secrets(&second);
    for secret in mine.iter() {
        assert!(!theirs.contains(secret));
    }
}

#[test]
fn generated_secrets_are_not_left_zero() {
    let key = gen_secret_key().unwrap();
    for secret in all_secrets(&key) {
        assert_ne!(secret, [0u8; 32]);
    }
}

#[test]
fn from_pairs_takes_exactly_256_pairs() {
    assert!(PrivKey::from_pairs(numbered_pairs(0)).is_none());
    assert!(PrivKey::from_pairs(numbered_pairs(1)).is_none());
    assert!(PrivKey::from_pairs(numbered_pairs(255)).is_none());
    assert!(PrivKey::from_pairs(numbered_pairs(257)).is_none());
    assert!(PrivKey::from_pairs(numbered_pairs(512)).is_none());
    assert!(PrivKey::from_pairs(numbered_pairs(256)).is_some());
}

#[test]
fn from_pairs_keeps_the_pairs_in_order() {
    let pairs = numbered_pairs(256);
    let key = PrivKey::from_pairs(pairs.clone()).unwrap();
    let mut p: usize = 0;
    while p < 256 {
        assert_eq!(key.get_tuple(p), pairs[p]);
        p += 1;
    }
    let first = key.get_tuple(0);
    assert_eq!(first.0[0], 0);
    assert_eq!(first.0[1], 0x11);
    assert_eq!(first.1[1], 0xee);
    assert_eq!(key.get_tuple(255).1[0], 255);
}

#[test]
fn derived_key_holds_the_hash_of_each_secret() {
    let key = PrivKey::from_pairs(numbered_pairs(256)).unwrap();
    let public = derive_pub_key(&key);
    let mut p: usize = 0;
    while p < 256 {
        let (a, b) = key.get_tuple(p);
        assert_eq!(public.get_tuple(p), (hash(&a), hash(&b)));
        p += 1;
    }
}

#[test]
fn derived_key_of_zero_secrets() {
    let pairs: Vec<([u8; 32], [u8; 32])> = vec![([0u8; 32], [7u8; 32]); 256];
    let key = PrivKey::from_pairs(pairs).unwrap();
    let public = derive_pub_key(&key);
    let hash_of_zeros: [u8; 32] = [
        0x66, 0x68, 0x7a, 0xad, 0xf8, 0x62, 0xbd, 0x77, 0x6c, 0x8f, 0xc1, 0x8b, 0x8e, 0x9f, 0x8e,
        0x20, 0x08, 0x97, 0x14, 0x85, 0x6e, 0xe2, 0x33, 0xb3, 0x90, 0x2a, 0x59, 0x1d, 0x0d, 0x5f,
        0x29, 0x25,
    ];
    let hash_of_sevens: [u8; 32] = [
        0x4b, 0xb0, 0x6f, 0x8e, 0x4e, 0x3a, 0x77, 0x15, 0xd2, 0x01, 0xd5, 0x73, 0xd0, 0xaa, 0x42,
        0x37, 0x62, 0xe5, 0x5d, 0xab, 0xd6, 0x1a, 0x2c, 0x02, 0x27, 0x8f, 0xa5, 0x6c, 0xc6, 0xd2,
        0x94, 0xe0,
    ];
    assert_eq!(public.get_tuple(0), (hash_of_zeros, hash_of_sevens));
    assert_eq!(public.get_tuple(255), (hash_of_zeros, hash_of_sevens));
    assert_ne!(public.get_tuple(0).0, key.get_tuple(0).0);
}

#[test]
fn derivation_is_deterministic() {
    let key = gen_secret_key().unwrap();
    let first = derive_pub_key(&key);
    let second = derive_pub_key(&key);
    assert_eq!(first.flat_hashes(), second.flat_hashes());
    let mut p: usize = 0;
    while p < 256 {
        assert_eq!(first.get_tuple(p), second.get_tuple(p));
        p += 1;
    }
    let known = derive_pub_key(&PrivKey::from_pairs(numbered_pairs(256)).unwrap());
    let again = derive_pub_key(&PrivKey::from_pairs(numbered_pairs(256)).unwrap());
    assert_eq!(known.flat_hashes(), again.flat_hashes());
}

#[test]
fn flat_hashes_lists_each_pair_in_turn() {
    let key = PrivKey::from_pairs(numbered_pairs(256)).unwrap();
    let public = derive_pub_key(&key);
    let flat = public.flat_hashes();
    assert_eq!(flat.len(), 512);
    let mut p: usize = 0;
    while p < 256 {
        let (a, b) = public.get_tuple(p);
        assert_eq!(flat[2 * p], a);
        assert_eq!(flat[2 * p + 1], b);
        p += 1;
    }
    assert_eq!(flat[0], hash(&key.get_tuple(0).0));
    assert_eq!(flat[1], hash(&key.get_tuple(0).1));
    assert_eq!(flat[511], hash(&key.get_tuple(255).1));
}

#[test]
fn drawn_keeps_the_buffer_of_a_successful_draw() {
    let buffer = [0x5au8; 32];
    assert_eq!(drawn(Ok(()), buffer), Ok(buffer));
    assert_eq!(drawn(Ok(()), [0u8; 32]), Ok([0u8; 32]));
}

#[test]
fn drawn_reports_a_failed_draw() {
    assert_eq!(
        drawn(Err(ring::error::Unspecified), [0x5au8; 32]),
        Err(KeyGenError::RandomnessUnavailable)
    );
    assert_eq!(
        drawn(Err(ring::error::Unspecified), [0u8; 32]),
        Err(KeyGenError::RandomnessUnavailable)
    );
}

#[test]
fn key_gen_error_can_be_shown_and_compared() {
    let e = KeyGenError::RandomnessUnavailable;
    assert_eq!(e, e.clone());
    assert_eq!(format!("{:?}", e), "RandomnessUnavailable");
}

fn counting_entropy() -> [u8; 256] {
    let mut entropy = [0u8; 256];
    let mut i: usize = 0;
    while i < 256 {
        entropy[i] = i as u8;
        i += 1;
    }
    entropy
}

#[test]
fn mix_entropy_xors_the_stream_onto_the_pair() {
    let entropy = counting_entropy();
    let pair = ([0x0fu8; 32], [0xf0u8; 32]);
    // position 1: the stream offsets are 64..96 and 96..128
    let mixed = mix_entropy(pair, &entropy, 1);
    let mut j: usize = 0;
    while j < 32 {
        assert_eq!(mixed.0[j], 0x0f ^ (64 + j) as u8);
        assert_eq!(mixed.1[j], 0xf0 ^ (96 + j) as u8);
        j += 1;
    }
    assert_eq!(mixed.0[0], 0x4f);
    assert_eq!(mixed.0[31], 0x50);
    assert_eq!(mixed.1[0], 0x90);
    assert_eq!(mixed.1[31], 0x8f);
}

#[test]
fn mix_entropy_repeats_every_four_pairs() {
    let entropy = counting_entropy();
    let pair = ([0xaau8; 32], [0x55u8; 32]);
    let at_0 = mix_entropy(pair, &entropy, 0);
    assert_eq!(at_0.0[0], 0xaa);
    assert_eq!(at_0.0[1], 0xab);
    assert_eq!(at_0.1[0], 0x55 ^ 32);
    assert_eq!(mix_entropy(pair, &entropy, 4), at_0);
    assert_eq!(mix_entropy(pair, &entropy, 252), at_0);
    // position 3 and 255 reach the end of the entropy: offsets 192..224, 224..256
    let at_3 = mix_entropy(pair, &entropy, 3);
    assert_eq!(at_3.0[0], 0xaa ^ 192);
    assert_eq!(at_3.1[31], 0x55 ^ 255);
    assert_eq!(mix_entropy(pair, &entropy, 255), at_3);
    assert_ne!(mix_entropy(pair, &entropy, 1), at_0);
}

#[test]
fn mix_entropy_of_zero_entropy_changes_nothing() {
    let pair = ([0x12u8; 32], [0x34u8; 32]);
    let mut p: usize = 0;
    while p < 256 {
        assert_eq!(mix_entropy(pair, &[0u8; 256], p), pair);
        p += 1;
    }
}

#[test]
fn mixing_twice_gives_the_pair_back() {
    let entropy = counting_entropy();
    let pair = ([0x77u8; 32], [0x01u8; 32]);
    let once = mix_entropy(pair, &entropy, 2);
    assert_ne!(once, pair);
    assert_eq!(mix_entropy(once, &entropy, 2), pair);
}

#[test]
fn key_with_entropy_signs_and_verifies() {
    let key = gen_secret_key_with_input(counting_entropy()).unwrap();
    assert_eq!(key.tuples_amount(), 256);
    let public = derive_pub_key(&key);
    let digest = hash(b"hi elichai2");
    let signature = key.sign(&digest);
    assert_eq!(signature.len(), 256);
    assert_eq!(public.verify(&digest, &signature), true);
    assert_eq!(public.verify(&hash(b"hi elichai3"), &signature), false);
}

#[test]
fn keys_with_the_same_entropy_differ() {
    let first = gen_secret_key_with_input([9u8; 256]).unwrap();
    let second = gen_secret_key_with_input([9u8; 256]).unwrap();
    let mine = all_secrets(&first);
    let theirs = all_secrets(&second);
    for secret in mine.iter() {
        assert!(!theirs.contains(secret));
    }
}
