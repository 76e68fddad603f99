use chacha20poly1305::aead::{Aead, KeyInit, Payload};
use sha2::Digest;
use po::crypto::aead::{SessionCipher, ENCRYPTION_OVERHEAD, INITIATOR_DIRECTION, RESPONDER_DIRECTION};
use po::crypto::error::CryptoError;
use po::crypto::exchange::{EphemeralKeypair, StaticKeypair};
use po::crypto::identity::{Identity, NodeId};

fn test_key() -> [u8; 32] {
    let mut key = [0u8; 32];
    key[0] = 0x42;
    key[31] = 0xFF;
    key
}

// ---- AEAD ----

#[test]
fn encrypt_decrypt_roundtrip() {
    let key = test_key();
    let mut encryptor = SessionCipher::new(&key);
    let decryptor = SessionCipher::new(&key);

    let plaintext = b"Hello from Protocol Orzatty!";
    let aad = b"frame-header-bytes";

    let encrypted = encryptor.encrypt(plaintext, aad).unwrap();
    assert_eq!(encrypted.len(), 12 + plaintext.len() + 16);

    let decrypted = decryptor.decrypt(&encrypted, aad).unwrap();
    assert_eq!(decrypted, plaintext);
}

#[test]
fn wrong_key_fails() {
    let mut encryptor = SessionCipher::new(&test_key());
    let wrong_key = [0xAA; 32];
    let decryptor = SessionCipher::new(&wrong_key);

    let encrypted = encryptor.encrypt(b"secret", b"").unwrap();
    assert!(decryptor.decrypt(&encrypted, b"").is_err());
}

#[test]
fn wrong_aad_fails() {
    let key = test_key();
    let mut encryptor = SessionCipher::new(&key);
    let decryptor = SessionCipher::new(&key);

    let encrypted = encryptor.encrypt(b"data", b"header-v1").unwrap();
    assert!(decryptor.decrypt(&encrypted, b"header-TAMPERED").is_err());
}

#[test]
fn tampered_ciphertext_fails() {
    let key = test_key();
    let mut encryptor = SessionCipher::new(&key);
    let decryptor = SessionCipher::new(&key);

    let mut encrypted = encryptor.encrypt(b"important data", b"").unwrap();
    encrypted[15] ^= 0xFF;
    assert!(decryptor.decrypt(&encrypted, b"").is_err());
}

#[test]
fn nonce_counter_increments() {
    let mut cipher = SessionCipher::new(&test_key());
    assert_eq!(cipher.nonce_counter(), 0);
    cipher.encrypt(b"a", b"").unwrap();
    assert_eq!(cipher.nonce_counter(), 1);
    cipher.encrypt(b"b", b"").unwrap();
    assert_eq!(cipher.nonce_counter(), 2);
}

#[test]
fn too_short_ciphertext() {
    let cipher = SessionCipher::new(&test_key());
    assert!(cipher.decrypt(&[0u8; 10], b"").is_err());
}

#[test]
fn empty_plaintext() {
    let key = test_key();
    let mut encryptor = SessionCipher::new(&key);
    let decryptor = SessionCipher::new(&key);

    let encrypted = encryptor.encrypt(b"", b"").unwrap();
    assert_eq!(encrypted.len(), ENCRYPTION_OVERHEAD);
    let decrypted = decryptor.decrypt(&encrypted, b"").unwrap();
    assert!(decrypted.is_empty());
}

#[test]
fn aead_large_payload() {
    let key = test_key();
    let mut encryptor = SessionCipher::new(&key);
    let decryptor = SessionCipher::new(&key);

    let payload = vec![0xAB; 1_000_000];
    let encrypted = encryptor.encrypt(&payload, b"big").unwrap();
    let decrypted = decryptor.decrypt(&encrypted, b"big").unwrap();
    assert_eq!(decrypted, payload);
}

#[test]
fn nonce_layout() {
    let mut cipher = SessionCipher::new(&test_key());
    let first = cipher.encrypt(b"x", b"").unwrap();
    assert_eq!(&first[..12], &[0u8; 12]);
    let second = cipher.encrypt(b"x", b"").unwrap();
    assert_eq!(&second[..12], &[0, 0, 0, 0, 1, 0, 0, 0, 0, 0, 0, 0]);
    // Distinct nonces give distinct ciphertexts of the same plaintext.
    assert_ne!(first[12..], second[12..]);
}

#[test]
fn responder_direction_nonces_are_disjoint() {
    let key = test_key();
    let mut initiator = SessionCipher::new(&key);
    let mut responder = SessionCipher::with_direction(&key, RESPONDER_DIRECTION);
    let a = initiator.encrypt(b"x", b"").unwrap();
    let b = responder.encrypt(b"x", b"").unwrap();
    assert_eq!(&a[..12], &[INITIATOR_DIRECTION, 0, 0, 0, 0, 0, 0, 0, 0, 0, 0, 0]);
    assert_eq!(&b[..12], &[RESPONDER_DIRECTION, 0, 0, 0, 0, 0, 0, 0, 0, 0, 0, 0]);
    assert_ne!(a[..12], b[..12]);
    // Either side decrypts the other's payload under the shared key.
    assert_eq!(initiator.decrypt(&b, b"").unwrap(), b"x");
    assert_eq!(responder.decrypt(&a, b"").unwrap(), b"x");
}

#[test]
fn seal_matches_chacha20poly1305() {
    let key = test_key();
    let mut cipher = SessionCipher::new(&key);
    let out = cipher.encrypt(b"payload", b"aad").unwrap();
    let reference = chacha20poly1305::ChaCha20Poly1305::new(&key.into())
        .encrypt(&[0u8; 12].into(), Payload { msg: b"payload", aad: b"aad" })
        .unwrap();
    assert_eq!(&out[12..], reference.as_slice());
}

#[test]
fn decrypt_error_texts() {
    let cipher = SessionCipher::new(&test_key());
    match cipher.decrypt(&[0u8; 10], b"") {
        Err(CryptoError::Decrypt(m)) => {
            assert_eq!(m, "ciphertext too short: 10 bytes (minimum 28)")
        }
        other => panic!("unexpected {other:?}"),
    }
    match cipher.decrypt(&[0u8; 40], b"") {
        Err(CryptoError::Decrypt(m)) => assert_eq!(
            m,
            "decryption failed: invalid key, corrupted data, or tampered ciphertext"
        ),
        other => panic!("unexpected {other:?}"),
    }
    assert_eq!(
        CryptoError::Decrypt("x".to_string()).to_display_string(),
        "decryption failed: x"
    );
    assert_eq!(CryptoError::InvalidSignature.to_display_string(), "invalid signature");
}

// ---- key exchange ----

#[test]
fn ephemeral_key_exchange() {
    let alice = EphemeralKeypair::generate();
    let bob = EphemeralKeypair::generate();

    let alice_pub = alice.public_bytes();
    let bob_pub = bob.public_bytes();

    let context = b"po-session-v1";

    let alice_key = alice.derive_session_key(&bob_pub, context).unwrap();
    let bob_key = bob.derive_session_key(&alice_pub, context).unwrap();

    assert_eq!(alice_key.as_bytes(), bob_key.as_bytes());
}

#[test]
fn different_peers_different_keys() {
    let alice = EphemeralKeypair::generate();
    let bob = EphemeralKeypair::generate();
    let eve = EphemeralKeypair::generate();

    let alice_pub = alice.public_bytes();
    let eve_pub = eve.public_bytes();
    let context = b"po-session-v1";

    let bob_alice_key = bob.derive_session_key(&alice_pub, context).unwrap();
    let _eve_key = eve.derive_session_key(&alice_pub, context);
    let alice_eve_key = alice.derive_session_key(&eve_pub, context).unwrap();
    assert_ne!(bob_alice_key.as_bytes(), alice_eve_key.as_bytes());
}

#[test]
fn static_key_exchange() {
    let alice = StaticKeypair::generate();
    let bob = StaticKeypair::generate();

    let context = b"po-static-v1";

    let key_a = alice.derive_session_key(&bob.public_bytes(), context).unwrap();
    let key_b = bob.derive_session_key(&alice.public_bytes(), context).unwrap();

    assert_eq!(key_a.as_bytes(), key_b.as_bytes());
}

#[test]
fn context_affects_key() {
    let alice = StaticKeypair::generate();
    let bob = StaticKeypair::generate();

    let key1 = alice.derive_session_key(&bob.public_bytes(), b"context-1").unwrap();
    let key2 = alice.derive_session_key(&bob.public_bytes(), b"context-2").unwrap();

    assert_ne!(key1.as_bytes(), key2.as_bytes());
}

#[test]
fn fixed_keys_agree() {
    let a = EphemeralKeypair::from_secret([7u8; 32]);
    let b = EphemeralKeypair::from_secret([9u8; 32]);
    let (pa, pb) = (a.public_bytes(), b.public_bytes());
    assert_ne!(pa, pb);
    let ka = a.derive_session_key(&pb, b"ctx").unwrap();
    let kb = b.derive_session_key(&pa, b"ctx").unwrap();
    assert_eq!(ka.as_bytes(), kb.as_bytes());
    assert_ne!(ka.as_bytes(), &[0u8; 32]);
}

// ---- identities ----

#[test]
fn generate_identity() {
    let id = Identity::generate();
    assert_eq!(id.node_id().0.len(), 32);
    assert!(!id.node_id().short().is_empty());
}

#[test]
fn identity_from_bytes_deterministic() {
    let id1 = Identity::generate();
    let secret = id1.secret_key_bytes();
    let id2 = Identity::from_bytes(&secret);
    assert_eq!(id1.node_id(), id2.node_id());
    assert_eq!(id1.public_key_bytes(), id2.public_key_bytes());
}

#[test]
fn sign_and_verify() {
    let id = Identity::generate();
    let data = b"Protocol Orzatty";
    let sig = id.sign(data);
    assert!(Identity::verify(id.public_key(), data, &sig));
}

#[test]
fn wrong_data_fails_verify() {
    let id = Identity::generate();
    let sig = id.sign(b"correct data");
    assert!(!Identity::verify(id.public_key(), b"wrong data", &sig));
}

#[test]
fn wrong_key_fails_verify() {
    let id1 = Identity::generate();
    let id2 = Identity::generate();
    let sig = id1.sign(b"test");
    assert!(!Identity::verify(id2.public_key(), b"test", &sig));
}

#[test]
fn node_id_display() {
    let id = Identity::generate();
    let short = id.node_id().short();
    let full = id.node_id().to_hex();
    assert_eq!(short.len(), 8);
    assert_eq!(full.len(), 64);
}

#[test]
fn node_id_hex_exact() {
    let mut bytes = [0u8; 32];
    bytes[0] = 0xde;
    bytes[1] = 0xad;
    bytes[2] = 0x0b;
    bytes[3] = 0xef;
    bytes[31] = 0x01;
    let id = NodeId(bytes);
    assert_eq!(id.short(), "dead0bef");
    assert_eq!(id.to_display_string(), "dead0bef");
    let full = id.to_hex();
    assert!(full.starts_with("dead0bef0000"));
    assert!(full.ends_with("0001"));
}

#[test]
fn node_id_is_sha256_of_public_key() {
    let id = Identity::from_bytes(&[3u8; 32]);
    let digest: [u8; 32] = sha2::Sha256::digest(id.public_key_bytes()).into();
    assert_eq!(id.node_id().0, digest);
    assert_eq!(NodeId::from_public_key(&id.public_key_bytes()), *id.node_id());
}

#[test]
fn ed25519_rfc8032_vector() {
    // RFC 8032 section 7.1, test 1.
    let secret: [u8; 32] = [
        0x9d, 0x61, 0xb1, 0x9d, 0xef, 0xfd, 0x5a, 0x60, 0xba, 0x84, 0x4a, 0xf4, 0x92, 0xec, 0x2c,
        0xc4, 0x44, 0x49, 0xc5, 0x69, 0x7b, 0x32, 0x69, 0x19, 0x70, 0x3b, 0xac, 0x03, 0x1c, 0xae,
        0x7f, 0x60,
    ];
    let public: [u8; 32] = [
        0xd7, 0x5a, 0x98, 0x01, 0x82, 0xb1, 0x0a, 0xb7, 0xd5, 0x4b, 0xfe, 0xd3, 0xc9, 0x64, 0x07,
        0x3a, 0x0e, 0xe1, 0x72, 0xf3, 0xda, 0xa6, 0x23, 0x25, 0xaf, 0x02, 0x1a, 0x68, 0xf7, 0x07,
        0x51, 0x1a,
    ];
    let id = Identity::from_bytes(&secret);
    assert_eq!(id.public_key_bytes(), public);
    let sig = id.sign(b"");
    assert_eq!(sig[0], 0xe5);
    assert_eq!(sig[63], 0x0b);
    assert!(Identity::verify(&public, b"", &sig));
}

fn hex32(s: &str) -> [u8; 32] {
    let mut out = [0u8; 32];
    for i in 0..32 {
        out[i] = u8::from_str_radix(&s[2 * i..2 * i + 2], 16).unwrap();
    }
    out
}

#[test]
fn x25519_rfc7748_vector() {
    let alice_secret = hex32("77076d0a7318a57d3c16c17251b26645df4c2f87ebc0992ab177fba51db92c2a");
    let alice_public = hex32("8520f0098930a754748b7ddcb43ef75a0dbf3a0d26381af4eba4a98eaa9b4e6a");
    let bob_public = hex32("de9edb7d7b7dc1b4d35b61c2ece435373f8343c85b78674dadfc7e146f882b4f");
    let shared = hex32("4a5d9d5ba4ce2de1728e3bf480350f25e07e21c947d19e3376f09b3c1e161742");

    let alice = EphemeralKeypair::from_secret(alice_secret);
    assert_eq!(alice.public_bytes(), alice_public);

    // The session key is HKDF-SHA256 (no salt) of the shared secret, with the context as info.
    let key = alice.derive_session_key(&bob_public, b"ctx").unwrap();
    let mut expected = [0u8; 32];
    hkdf::Hkdf::<sha2::Sha256>::new(None, &shared).expand(b"ctx", &mut expected).unwrap();
    assert_eq!(key.as_bytes(), &expected);
}
