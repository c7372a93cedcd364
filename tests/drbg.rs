use ecc_keygen::{entropy_source_error, instantiate_primary, instantiate_rng, Drbg, HashAlg, KeygenError};

fn hex_bytes(s: &str) -> Vec<u8> {
    (0..s.len() / 2)
        .map(|i| u8::from_str_radix(&s[2 * i..2 * i + 2], 16).unwrap())
        .collect()
}

fn kat_entropy() -> Vec<u8> {
    hex_bytes("0102030405060708090a0b0c0d0e0f101112131415161718191a1b1c1d1e1f20")
}

fn output(drbg: &mut Drbg, len: usize, additional_input: Option<&[u8]>) -> Vec<u8> {
    let mut out = vec![0u8; len];
    drbg.generate(&mut out, additional_input).unwrap();
    out
}

#[test]
fn min_seed_entropy_len_per_algorithm() {
    assert_eq!(Drbg::min_seed_entropy_len(HashAlg::Sha256), 32);
    assert_eq!(Drbg::min_seed_entropy_len(HashAlg::Sha384), 48);
    assert_eq!(Drbg::min_seed_entropy_len(HashAlg::Sha512), 64);
}

#[test]
fn instantiate_refuses_short_entropy() {
    let r = Drbg::instantiate(HashAlg::Sha256, &[7u8; 31], None, None);
    assert!(matches!(r, Err(KeygenError::InsufficientEntropy)));
    let r = Drbg::instantiate(HashAlg::Sha512, &[7u8; 63], None, Some(b"p"));
    assert!(matches!(r, Err(KeygenError::InsufficientEntropy)));
    let r = Drbg::instantiate(HashAlg::Sha256, &[], None, None);
    assert!(matches!(r, Err(KeygenError::InsufficientEntropy)));
}

#[test]
fn instantiate_accepts_exact_minimum() {
    let d = Drbg::instantiate(HashAlg::Sha384, &[7u8; 48], None, None).unwrap();
    assert_eq!(d.hash_alg(), HashAlg::Sha384);
}

#[test]
fn known_answer_sha256_without_optional_inputs() {
    let entropy = kat_entropy();
    let mut drbg = Drbg::instantiate(HashAlg::Sha256, &entropy, None, None).unwrap();
    assert_eq!(
        output(&mut drbg, 80, None),
        hex_bytes(
            "088f2cce0bef99c5388ac0742cb1b4cdac7298deeaf397322e05c9a5b3cd9098\
             b9708d0ee5e5dafcd6cb1ca92d7bff364143f38f595376c92b8b2622719a4a85\
             47173de88e6d6525b6b9ba1bbe9255c9"
        )
    );
    drbg.reseed(&entropy, None).unwrap();
    assert_eq!(output(&mut drbg, 15, None), hex_bytes("46bbcc9f8c9a35586eac2400ffb8c7"));
}

#[test]
fn known_answer_sha256_with_optional_inputs() {
    let entropy = kat_entropy();
    let nonce = b"test_hash_drbg_nonce";
    let personalization = b"test_hash_drbg_personalization";
    let additional = b"test_hash_drbg_additional_input";
    let mut drbg = Drbg::instantiate(HashAlg::Sha256, &entropy, Some(nonce), Some(personalization)).unwrap();
    assert_eq!(
        output(&mut drbg, 80, Some(additional)),
        hex_bytes(
            "a333be1ae7814d314e3ed203a377ca10dac6701ec2c9a1faf3b79dab0856216c\
             5a880f18c3204ceb1f5e0eadb507231b8640627fc657f390e354e9de3d58f734\
             89de9a141dac66b86e821ea8e6aa48e6"
        )
    );
    drbg.reseed(&entropy, Some(additional)).unwrap();
    assert_eq!(output(&mut drbg, 15, Some(additional)), hex_bytes("e1b7638a93bc4e490219c3170dce3a"));
}

#[test]
fn same_seed_gives_same_stream() {
    let entropy = [0x5au8; 32];
    let mut a = Drbg::instantiate(HashAlg::Sha256, &entropy, Some(b"n"), Some(b"pers")).unwrap();
    let mut b = Drbg::instantiate(HashAlg::Sha256, &entropy, Some(b"n"), Some(b"pers")).unwrap();
    for _ in 0..3 {
        assert_eq!(output(&mut a, 64, None), output(&mut b, 64, None));
    }
}

#[test]
fn different_personalization_gives_different_stream() {
    let entropy = [0x5au8; 32];
    let mut a = Drbg::instantiate(HashAlg::Sha256, &entropy, None, Some(b"one")).unwrap();
    let mut b = Drbg::instantiate(HashAlg::Sha256, &entropy, None, Some(b"two")).unwrap();
    assert_ne!(output(&mut a, 64, None), output(&mut b, 64, None));
}

#[test]
fn successive_requests_differ() {
    // The state moves on after every request: the next output is not a
    // repetition of the last, and a generator seeded alike but one request
    // further along no longer reproduces the earlier output.
    let entropy = [0x11u8; 32];
    let mut a = Drbg::instantiate(HashAlg::Sha256, &entropy, None, None).unwrap();
    let first = output(&mut a, 32, None);
    let second = output(&mut a, 32, None);
    assert_ne!(first, second);
    let mut b = Drbg::instantiate(HashAlg::Sha256, &entropy, None, None).unwrap();
    assert_eq!(output(&mut b, 32, None), first);
    assert_eq!(output(&mut b, 32, None), second);
    assert_ne!(output(&mut b, 32, None), first);
}

#[test]
fn reseed_refuses_short_entropy_and_keeps_state() {
    let entropy = [0x22u8; 32];
    let mut a = Drbg::instantiate(HashAlg::Sha256, &entropy, None, None).unwrap();
    let mut b = Drbg::instantiate(HashAlg::Sha256, &entropy, None, None).unwrap();
    assert!(matches!(a.reseed(&[1u8; 31], None), Err(KeygenError::InsufficientEntropy)));
    assert_eq!(output(&mut a, 48, None), output(&mut b, 48, None));
}

#[test]
fn reseed_changes_stream() {
    let entropy = [0x33u8; 32];
    let mut a = Drbg::instantiate(HashAlg::Sha256, &entropy, None, None).unwrap();
    let mut b = Drbg::instantiate(HashAlg::Sha256, &entropy, None, None).unwrap();
    a.reseed(&[0x44u8; 32], None).unwrap();
    assert_ne!(output(&mut a, 32, None), output(&mut b, 32, None));
}

#[test]
fn empty_request_succeeds() {
    let mut a = Drbg::instantiate(HashAlg::Sha256, &[1u8; 32], None, None).unwrap();
    assert_eq!(output(&mut a, 0, None), Vec::<u8>::new());
}

#[test]
fn primary_rng_is_sha256_or_reports_missing_entropy() {
    match instantiate_rng() {
        Ok(d) => assert_eq!(d.hash_alg(), HashAlg::Sha256),
        Err(e) => assert!(e == KeygenError::EntropyUnavailable || e == KeygenError::RngFailure),
    }
}

#[test]
fn primary_instantiation_uses_fixed_inputs() {
    let entropy = [0x77u8; 32];
    let mut a = instantiate_primary(&entropy).unwrap();
    assert_eq!(a.hash_alg(), HashAlg::Sha256);
    let mut b = Drbg::instantiate(HashAlg::Sha256, &entropy, None, Some(b"SVSM primary rng")).unwrap();
    assert_eq!(output(&mut a, 40, None), output(&mut b, 40, None));
}

#[test]
fn primary_instantiation_refuses_short_entropy() {
    assert!(matches!(instantiate_primary(&[1u8; 31]), Err(KeygenError::InsufficientEntropy)));
}

#[test]
fn missing_entropy_source_is_reported() {
    assert_eq!(entropy_source_error(), KeygenError::EntropyUnavailable);
}
