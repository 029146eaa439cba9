use globalsend_crypto::aead_decrypt;
use globalsend_crypto::aead_encrypt;
use globalsend_crypto::derive_aead;
use globalsend_crypto::messages_recover_at_own_counter;
use globalsend_crypto::next_nonce;
use globalsend_crypto::shared_secrets_agree;
use globalsend_crypto::AeadError;
use globalsend_crypto::DeviceKey;

#[test]
fn ecdh_derive_encrypt_roundtrip() {
    // Alice
    let a = DeviceKey::generate();
    // Bob
    let b = DeviceKey::generate();

    let shared_a = a.ecdh(&b.public());
    let shared_b = b.ecdh(&a.public());
    assert_eq!(shared_a, shared_b);

    let (key, base_nonce) = derive_aead(&shared_a);
    let aad = b"meta";
    let msg = b"hello world from globalsend";
    let ct = aead_encrypt(&key, &base_nonce, 1, aad, msg).expect("encrypt");
    let pt = aead_decrypt(&key, &base_nonce, 1, aad, &ct).expect("decrypt");
    assert_eq!(pt, msg);
}

#[test]
fn ecdh_symmetry() {
    let a = DeviceKey::generate();
    let b = DeviceKey::generate();
    let (shared_a, shared_b) = shared_secrets_agree(&a, &b);
    assert_eq!(shared_a, shared_b);
    // Distinct devices give distinct public points.
    assert_ne!(a.public(), b.public());
    // The projection is deterministic.
    assert_eq!(a.public(), a.public());
}

#[test]
fn dispose_clears_secret() {
    let mut a = DeviceKey::generate();
    let mut b = DeviceKey::generate();
    assert_ne!(a.public(), b.public());
    a.dispose();
    b.dispose();
    // Both scalars are zeroed, so both keys now project to the public
    // point of the all-zero scalar.
    assert_eq!(a.public(), b.public());
}

#[test]
fn derive_is_deterministic() {
    let secret = [7u8; 32];
    let (k1, n1) = derive_aead(&secret);
    let (k2, n2) = derive_aead(&secret);
    assert_eq!(k1, k2);
    assert_eq!(n1, n2);

    let other = [8u8; 32];
    let (k3, n3) = derive_aead(&other);
    assert_ne!(k1, k3);
    assert_ne!(n1, n3);
}

#[test]
fn derive_output_differs_from_secret() {
    let secret = [42u8; 32];
    let (key, base_nonce) = derive_aead(&secret);
    assert_ne!(key, secret);
    assert_ne!(base_nonce, secret[..24]);
}

#[test]
fn nonce_exact_value() {
    let base = [0u8; 24];
    let n = next_nonce(&base, 0x0102030405060708);
    let mut expected = [0u8; 24];
    expected[16..].copy_from_slice(&[1, 2, 3, 4, 5, 6, 7, 8]);
    assert_eq!(n, expected);

    let mut base2 = [0xabu8; 24];
    base2[23] = 0x0f;
    let n2 = next_nonce(&base2, 1);
    let mut expected2 = base2;
    expected2[23] = 0x0f ^ 1;
    assert_eq!(n2, expected2);

    // Counter zero leaves the base nonce unchanged.
    assert_eq!(next_nonce(&base2, 0), base2);
}

#[test]
fn nonce_injective_concrete() {
    let base = [0x5au8; 24];
    assert_ne!(next_nonce(&base, 1), next_nonce(&base, 2));
    assert_ne!(next_nonce(&base, 0), next_nonce(&base, u64::MAX));
    assert_eq!(next_nonce(&base, 77), next_nonce(&base, 77));
}

#[test]
fn ciphertext_carries_tag() {
    let key = [1u8; 32];
    let base = [2u8; 24];
    let msg = b"sixteen byte msg";
    let ct = aead_encrypt(&key, &base, 3, b"aad", msg).expect("encrypt");
    assert_eq!(ct.len(), msg.len() + 16);
    // The encrypted body is not the plaintext.
    assert_ne!(&ct[..msg.len()], &msg[..]);
}

#[test]
fn empty_plaintext_roundtrip() {
    let key = [9u8; 32];
    let base = [4u8; 24];
    let ct = aead_encrypt(&key, &base, 0, b"", b"").expect("encrypt");
    assert_eq!(ct.len(), 16);
    let pt = aead_decrypt(&key, &base, 0, b"", &ct).expect("decrypt");
    assert!(pt.is_empty());
}

#[test]
fn tamper_detection_every_bit() {
    let key = [11u8; 32];
    let base = [12u8; 24];
    let aad = b"header";
    let msg = b"payload under test";
    let ct = aead_encrypt(&key, &base, 5, aad, msg).expect("encrypt");
    // Flip every single bit of the ciphertext (body and tag alike): each
    // flip must be rejected whole.
    for byte in 0..ct.len() {
        for bit in 0..8 {
            let mut bad = ct.clone();
            bad[byte] ^= 1 << bit;
            let r = aead_decrypt(&key, &base, 5, aad, &bad);
            assert_eq!(r, Err(AeadError::AuthenticationFailure));
        }
    }
    // Flip every single bit of the associated data.
    for byte in 0..aad.len() {
        for bit in 0..8 {
            let mut bad_aad = *aad;
            bad_aad[byte] ^= 1 << bit;
            let r = aead_decrypt(&key, &base, 5, &bad_aad, &ct);
            assert_eq!(r, Err(AeadError::AuthenticationFailure));
        }
    }
    // The untampered ciphertext still decrypts.
    assert_eq!(aead_decrypt(&key, &base, 5, aad, &ct).expect("decrypt"), msg);
}

#[test]
fn cross_counter_non_interference() {
    let key = [21u8; 32];
    let base = [22u8; 24];
    let aad = b"meta";
    let msg1 = b"first message";
    let msg2 = b"second message";
    let ct1 = aead_encrypt(&key, &base, 1, aad, msg1).expect("encrypt");
    let ct2 = aead_encrypt(&key, &base, 2, aad, msg2).expect("encrypt");
    assert_eq!(aead_decrypt(&key, &base, 1, aad, &ct1).expect("decrypt"), msg1);
    assert_eq!(aead_decrypt(&key, &base, 2, aad, &ct2).expect("decrypt"), msg2);
    // Each ciphertext is bound to its own counter.
    assert_eq!(
        aead_decrypt(&key, &base, 2, aad, &ct1),
        Err(AeadError::AuthenticationFailure)
    );
    assert_eq!(
        aead_decrypt(&key, &base, 1, aad, &ct2),
        Err(AeadError::AuthenticationFailure)
    );
}

#[test]
fn two_messages_recover() {
    let key = [51u8; 32];
    let base = [52u8; 24];
    let (p1, p2) = messages_recover_at_own_counter(&key, &base, 10, 11, b"aad", b"one", b"two")
        .expect("both messages fit");
    assert_eq!(p1, b"one");
    assert_eq!(p2, b"two");
}

#[test]
fn wrong_counter_or_aad_fails() {
    let a = DeviceKey::generate();
    let b = DeviceKey::generate();
    let shared = a.ecdh(&b.public());
    let (key, base_nonce) = derive_aead(&shared);
    let ct = aead_encrypt(&key, &base_nonce, 1, b"meta", b"hello world from globalsend")
        .expect("encrypt");
    assert_eq!(
        aead_decrypt(&key, &base_nonce, 2, b"meta", &ct),
        Err(AeadError::AuthenticationFailure)
    );
    assert_eq!(
        aead_decrypt(&key, &base_nonce, 1, b"meta2", &ct),
        Err(AeadError::AuthenticationFailure)
    );
}

#[test]
fn short_ciphertext_is_malformed() {
    let key = [3u8; 32];
    let base = [5u8; 24];
    assert_eq!(
        aead_decrypt(&key, &base, 0, b"", &[]),
        Err(AeadError::MalformedInput)
    );
    assert_eq!(
        aead_decrypt(&key, &base, 0, b"", &[0u8; 15]),
        Err(AeadError::MalformedInput)
    );
    // Sixteen bytes reach tag verification, which then fails.
    assert_eq!(
        aead_decrypt(&key, &base, 0, b"", &[0u8; 16]),
        Err(AeadError::AuthenticationFailure)
    );
}

#[test]
fn decryption_under_wrong_key_fails() {
    let key = [31u8; 32];
    let wrong_key = [32u8; 32];
    let base = [33u8; 24];
    let ct = aead_encrypt(&key, &base, 9, b"x", b"secret body").expect("encrypt");
    assert_eq!(
        aead_decrypt(&wrong_key, &base, 9, b"x", &ct),
        Err(AeadError::AuthenticationFailure)
    );
}
