use crypto_facade::{
    generate_kyber_keypair, kyber_decapsulate, kyber_encapsulate, FacadeError, Field,
    KYBER_CIPHERTEXT_SIZE, KYBER_PUBLIC_KEY_SIZE, KYBER_SECRET_KEY_SIZE, KYBER_SHARED_SECRET_SIZE,
};

fn invalid(field: Field, expected: usize, actual: usize) -> FacadeError {
    FacadeError::InvalidLength { field, expected, actual }
}

#[test]
fn kyber_size_constants() {
    assert_eq!(KYBER_PUBLIC_KEY_SIZE, 1568);
    assert_eq!(KYBER_SECRET_KEY_SIZE, 3168);
    assert_eq!(KYBER_CIPHERTEXT_SIZE, 1568);
    assert_eq!(KYBER_SHARED_SECRET_SIZE, 32);
}

#[test]
fn keypair_has_its_sizes() {
    let pair = generate_kyber_keypair();
    assert_eq!(pair.public_key.len(), 1568);
    assert_eq!(pair.secret_key.len(), 3168);
}

#[test]
fn decapsulation_recovers_the_encapsulated_secret() {
    let pair = generate_kyber_keypair();
    let sent = kyber_encapsulate(&pair.public_key).unwrap();
    assert_eq!(sent.ciphertext.len(), 1568);
    assert_eq!(sent.shared_secret.len(), 32);
    let received = kyber_decapsulate(&pair.secret_key, &sent.ciphertext).unwrap();
    assert_eq!(received, sent.shared_secret);
}

#[test]
fn another_key_pair_does_not_recover_the_secret() {
    let pair = generate_kyber_keypair();
    let other = generate_kyber_keypair();
    let sent = kyber_encapsulate(&pair.public_key).unwrap();
    let received = kyber_decapsulate(&other.secret_key, &sent.ciphertext).unwrap();
    assert_ne!(received, sent.shared_secret);
}

#[test]
fn encapsulation_is_fresh_each_call() {
    let pair = generate_kyber_keypair();
    let first = kyber_encapsulate(&pair.public_key).unwrap();
    let second = kyber_encapsulate(&pair.public_key).unwrap();
    assert_ne!(first.ciphertext, second.ciphertext);
    assert_ne!(first.shared_secret, second.shared_secret);
    assert_eq!(kyber_decapsulate(&pair.secret_key, &first.ciphertext).unwrap(), first.shared_secret);
    assert_eq!(kyber_decapsulate(&pair.secret_key, &second.ciphertext).unwrap(), second.shared_secret);
}

#[test]
fn decapsulation_is_deterministic_under_implicit_rejection() {
    let pair = generate_kyber_keypair();
    let forged: Vec<u8> = (0..1568u32).map(|i| (i * 7 % 256) as u8).collect();
    let first = kyber_decapsulate(&pair.secret_key, &forged).unwrap();
    let second = kyber_decapsulate(&pair.secret_key, &forged).unwrap();
    assert_eq!(first.len(), 32);
    assert_eq!(first, second);
}

#[test]
fn tampered_kem_ciphertext_gives_another_secret() {
    let pair = generate_kyber_keypair();
    let sent = kyber_encapsulate(&pair.public_key).unwrap();
    let mut tampered = sent.ciphertext.clone();
    tampered[0] ^= 1;
    let received = kyber_decapsulate(&pair.secret_key, &tampered).unwrap();
    assert_eq!(received.len(), 32);
    assert_ne!(received, sent.shared_secret);
}

#[test]
fn encapsulate_rejects_bad_public_key_length() {
    for len in [0usize, 1567, 1569, 3168] {
        let key = vec![0u8; len];
        assert!(matches!(
            kyber_encapsulate(&key),
            Err(FacadeError::InvalidLength { field: Field::PublicKey, expected: 1568, actual }) if actual == len
        ));
    }
}

#[test]
fn decapsulate_rejects_bad_secret_key_length() {
    let ciphertext = vec![0u8; 1568];
    assert_eq!(kyber_decapsulate(&[0u8; 1568], &ciphertext), Err(invalid(Field::SecretKey, 3168, 1568)));
    assert_eq!(kyber_decapsulate(&[], &ciphertext), Err(invalid(Field::SecretKey, 3168, 0)));
}

#[test]
fn decapsulate_rejects_bad_ciphertext_length() {
    let secret_key = vec![0u8; 3168];
    assert_eq!(kyber_decapsulate(&secret_key, &[0u8; 32]), Err(invalid(Field::Ciphertext, 1568, 32)));
    assert_eq!(kyber_decapsulate(&[0u8; 1], &[0u8; 32]), Err(invalid(Field::SecretKey, 3168, 1)));
}
