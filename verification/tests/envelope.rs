use chacha20poly1305::aead::{Aead, KeyInit};
use chacha20poly1305::{Key, XChaCha20Poly1305, XNonce};
use enclave_relay::cipher::{fits_key_stream, MESSAGE_BLOCKS, NONCE_LEN, TAG_LEN};
use enclave_relay::envelope::{seal_envelope, EncryptionEnvelope, Engine};
use enclave_relay::error::AuthenticationFailure;
use enclave_relay::key::MasterKey;
use enclave_relay::request_id::RequestIds;
use std::collections::HashSet;

fn key_of(byte: u8) -> MasterKey {
    MasterKey::from_bytes(&[byte; 32]).unwrap()
}

#[test]
fn cipher_sizes() {
    assert_eq!(NONCE_LEN, 24);
    assert_eq!(TAG_LEN, 16);
}

#[test]
fn encrypt_then_decrypt_returns_the_plaintext() {
    let engine = Engine::new(key_of(7));
    let envelope = engine.encrypt(&mut RequestIds::new(), b"hello", "text/plain").unwrap();
    assert_eq!(envelope.content_type, "text/plain");
    assert_eq!(envelope.nonce.len(), 24);
    assert_eq!(envelope.ciphertext.len(), 5 + 16);
    assert_ne!(&envelope.ciphertext[..5], b"hello");
    assert!(!envelope.request_id.is_empty());
    assert_eq!(engine.decrypt(&envelope), Ok(b"hello".to_vec()));
}

#[test]
fn round_trip_for_many_plaintexts_and_content_types() {
    let engine = Engine::ephemeral();
    let content_types = ["", "text/plain", "application/json; charset=utf-8", "\u{1f512}/\"x\""];
    for len in [0usize, 1, 15, 16, 17, 63, 64, 65, 255, 1000, 70_000] {
        let plaintext: Vec<u8> = (0..len).map(|i| (i * 31 + 7) as u8).collect();
        for content_type in content_types {
            let envelope = engine.encrypt(&mut RequestIds::new(), &plaintext, content_type).unwrap();
            assert_eq!(envelope.content_type, content_type);
            assert_eq!(envelope.ciphertext.len(), len + 16);
            assert_eq!(engine.decrypt(&envelope), Ok(plaintext.clone()));
        }
    }
}

#[test]
fn empty_plaintext_seals_to_a_bare_tag() {
    let engine = Engine::new(key_of(1));
    let envelope = engine.encrypt(&mut RequestIds::new(), b"", "text/plain").unwrap();
    assert_eq!(envelope.ciphertext.len(), 16);
    assert_eq!(engine.decrypt(&envelope), Ok(Vec::new()));
}

#[test]
fn nonces_are_pairwise_distinct() {
    let engine = Engine::new(key_of(3));
    let mut seen: HashSet<Vec<u8>> = HashSet::new();
    for _ in 0..5000 {
        let envelope = engine.encrypt(&mut RequestIds::new(), b"same body", "application/octet-stream").unwrap();
        assert!(seen.insert(envelope.nonce), "a nonce came twice");
    }
    assert_eq!(seen.len(), 5000);
}

#[test]
fn flipping_any_bit_of_the_ciphertext_fails_authentication() {
    let engine = Engine::new(key_of(11));
    let envelope = engine.encrypt(&mut RequestIds::new(), b"hello", "text/plain").unwrap();
    for byte in 0..envelope.ciphertext.len() {
        for bit in 0..8 {
            let mut tampered = envelope.clone();
            tampered.ciphertext[byte] ^= 1 << bit;
            assert_eq!(engine.decrypt(&tampered), Err(AuthenticationFailure));
        }
    }
    assert_eq!(engine.decrypt(&envelope), Ok(b"hello".to_vec()));
}

#[test]
fn flipping_any_bit_of_the_nonce_fails_authentication() {
    let engine = Engine::new(key_of(12));
    let envelope = engine.encrypt(&mut RequestIds::new(), b"hello", "text/plain").unwrap();
    for byte in 0..envelope.nonce.len() {
        for bit in 0..8 {
            let mut tampered = envelope.clone();
            tampered.nonce[byte] ^= 1 << bit;
            assert_eq!(engine.decrypt(&tampered), Err(AuthenticationFailure));
        }
    }
}

#[test]
fn another_key_fails_authentication() {
    let envelope = Engine::new(key_of(1)).encrypt(&mut RequestIds::new(), b"secret", "text/plain").unwrap();
    assert_eq!(Engine::new(key_of(2)).decrypt(&envelope), Err(AuthenticationFailure));
}

#[test]
fn nonce_of_another_length_fails_authentication() {
    let engine = Engine::new(key_of(4));
    let envelope = engine.encrypt(&mut RequestIds::new(), b"hello", "text/plain").unwrap();
    for len in [0usize, 12, 23, 25, 48] {
        let mut tampered = envelope.clone();
        tampered.nonce.resize(len, 0);
        assert_eq!(engine.decrypt(&tampered), Err(AuthenticationFailure));
    }
}

#[test]
fn ciphertext_shorter_than_a_tag_fails_authentication() {
    let engine = Engine::new(key_of(4));
    let envelope = engine.encrypt(&mut RequestIds::new(), b"hello", "text/plain").unwrap();
    for len in 0..16 {
        let mut tampered = envelope.clone();
        tampered.ciphertext.truncate(len);
        assert_eq!(engine.decrypt(&tampered), Err(AuthenticationFailure));
    }
}

#[test]
fn truncated_or_extended_ciphertext_fails_authentication() {
    let engine = Engine::new(key_of(4));
    let envelope = engine.encrypt(&mut RequestIds::new(), b"hello world", "text/plain").unwrap();
    let mut shorter = envelope.clone();
    shorter.ciphertext.pop();
    assert_eq!(engine.decrypt(&shorter), Err(AuthenticationFailure));
    let mut longer = envelope.clone();
    longer.ciphertext.push(0);
    assert_eq!(engine.decrypt(&longer), Err(AuthenticationFailure));
}

#[test]
fn seal_envelope_is_xchacha20poly1305_under_the_given_key_and_nonce() {
    let key_bytes: Vec<u8> = (0..32).collect();
    let nonce: [u8; 24] = [
        64, 65, 66, 67, 68, 69, 70, 71, 72, 73, 74, 75, 76, 77, 78, 79, 80, 81, 82, 83, 84, 85,
        86, 87,
    ];
    let key = MasterKey::from_bytes(&key_bytes).unwrap();
    let envelope =
        seal_envelope(&key, "1f".to_string(), "text/plain", &nonce, b"attack at dawn").unwrap();
    let expected = XChaCha20Poly1305::new(Key::from_slice(&key_bytes))
        .encrypt(XNonce::from_slice(&nonce), b"attack at dawn".as_ref())
        .unwrap();
    assert_eq!(
        envelope,
        EncryptionEnvelope {
            request_id: "1f".to_string(),
            content_type: "text/plain".to_string(),
            nonce: nonce.to_vec(),
            ciphertext: expected,
        }
    );
    assert_eq!(Engine::new(key).decrypt(&envelope), Ok(b"attack at dawn".to_vec()));
}

#[test]
fn seal_envelope_depends_on_key_and_nonce() {
    let a = seal_envelope(&key_of(1), "a".to_string(), "t", &[0u8; 24], b"body").unwrap();
    let b = seal_envelope(&key_of(2), "a".to_string(), "t", &[0u8; 24], b"body").unwrap();
    let c = seal_envelope(&key_of(1), "a".to_string(), "t", &[1u8; 24], b"body").unwrap();
    let again = seal_envelope(&key_of(1), "a".to_string(), "t", &[0u8; 24], b"body").unwrap();
    assert_ne!(a.ciphertext, b.ciphertext);
    assert_ne!(a.ciphertext, c.ciphertext);
    assert_eq!(a, again);
}

#[test]
fn decrypt_opens_what_the_cipher_sealed() {
    let key_bytes = [9u8; 32];
    let nonce = [3u8; 24];
    let ciphertext = XChaCha20Poly1305::new(Key::from_slice(&key_bytes))
        .encrypt(XNonce::from_slice(&nonce), b"from elsewhere".as_ref())
        .unwrap();
    let envelope = EncryptionEnvelope {
        request_id: "0".to_string(),
        content_type: "text/plain".to_string(),
        nonce: nonce.to_vec(),
        ciphertext,
    };
    assert_eq!(Engine::new(key_of(9)).decrypt(&envelope), Ok(b"from elsewhere".to_vec()));
}

#[test]
fn key_stream_has_room_for_all_blocks_but_the_first() {
    assert_eq!(MESSAGE_BLOCKS, 4294967294);
    assert!(fits_key_stream(0));
    assert!(fits_key_stream(1));
    assert!(fits_key_stream(64 * 4294967294 - 1));
    assert!(fits_key_stream(64 * 4294967294));
    assert!(!fits_key_stream(64 * 4294967294 + 1));
    assert!(!fits_key_stream(64 * 4294967294 + 63));
    assert!(!fits_key_stream(64 * 4294967295));
    assert!(!fits_key_stream(usize::MAX));
}

#[test]
fn envelopes_under_one_issuer_get_different_identifiers() {
    let engine = Engine::new(key_of(13));
    let mut ids = RequestIds::new();
    let mut seen: HashSet<String> = HashSet::new();
    for _ in 0..5000 {
        let envelope = engine.encrypt(&mut ids, b"same body", "text/plain").unwrap();
        assert!(seen.insert(envelope.request_id), "an identifier came twice");
    }
}
