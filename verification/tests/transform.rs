use base64::Engine;
use image_proxy::config::{CompressionConfig, EncryptionConfig};
use image_proxy::crypto::{generate_encryption_key, CryptoError, CryptoProcessor};

fn encryption_off() -> EncryptionConfig {
    EncryptionConfig { enabled: false, algorithm: "AES-256-GCM".to_string(), key: None }
}

fn encryption_on(key: &str) -> EncryptionConfig {
    EncryptionConfig {
        enabled: true,
        algorithm: "AES-256-GCM".to_string(),
        key: Some(key.to_string()),
    }
}

fn compression_off() -> CompressionConfig {
    CompressionConfig { enabled: false, algorithm: "gzip".to_string(), level: 6 }
}

fn compression_on(level: u32) -> CompressionConfig {
    CompressionConfig { enabled: true, algorithm: "gzip".to_string(), level }
}

fn test_key() -> String {
    base64::engine::general_purpose::STANDARD.encode([7u8; 32])
}

fn round_trip(p: &CryptoProcessor, data: &[u8]) {
    let stored = p.process_for_storage(&data.to_vec()).expect("storage transform");
    let back = p.process_for_retrieval(&stored).expect("retrieval transform");
    assert_eq!(back, data.to_vec());
}

#[test]
fn round_trip_no_stages() {
    let p = CryptoProcessor::new(encryption_off(), compression_off()).unwrap();
    let data = vec![1u8, 2, 3, 4, 5];
    let stored = p.process_for_storage(&data).unwrap();
    assert_eq!(stored, data);
    round_trip(&p, &data);
    round_trip(&p, b"");
}

#[test]
fn round_trip_compression_only() {
    let p = CryptoProcessor::new(encryption_off(), compression_on(6)).unwrap();
    round_trip(&p, b"");
    round_trip(&p, b"a");
    round_trip(&p, &[0u8; 10000]);
    round_trip(&p, &(0..=255u8).collect::<Vec<u8>>());
}

#[test]
fn round_trip_encryption_only() {
    let p = CryptoProcessor::new(encryption_on(&test_key()), compression_off()).unwrap();
    round_trip(&p, b"");
    round_trip(&p, b"top secret image bytes");
    round_trip(&p, &[0u8; 4096]);
}

#[test]
fn round_trip_both_stages() {
    let p = CryptoProcessor::new(encryption_on(&test_key()), compression_on(9)).unwrap();
    round_trip(&p, b"");
    round_trip(&p, b"payload under both stages");
    round_trip(&p, &[42u8; 20000]);
}

#[test]
fn round_trip_with_generated_key() {
    let key = generate_encryption_key();
    let p = CryptoProcessor::new(encryption_on(&key), compression_on(1)).unwrap();
    round_trip(&p, b"generated key round trip");
}

#[test]
fn generated_key_decodes_to_32_bytes() {
    let key = generate_encryption_key();
    assert_eq!(key.len(), 44);
    let bytes = base64::engine::general_purpose::STANDARD.decode(&key).unwrap();
    assert_eq!(bytes.len(), 32);
}

#[test]
fn generated_keys_differ() {
    assert_ne!(generate_encryption_key(), generate_encryption_key());
}

#[test]
fn compression_is_deterministic() {
    let p = CryptoProcessor::new(encryption_off(), compression_on(6)).unwrap();
    let data = (0..=255u8).cycle().take(5000).collect::<Vec<u8>>();
    assert_eq!(
        p.process_for_storage(&data).unwrap(),
        p.process_for_storage(&data).unwrap()
    );
}

#[test]
fn construction_rejects_a_level_off_the_scale() {
    let comp = CompressionConfig { enabled: true, algorithm: "gzip".to_string(), level: 10 };
    assert_eq!(
        CryptoProcessor::new(encryption_off(), comp).err(),
        Some(CryptoError::InvalidCompressionLevel)
    );
}

#[test]
fn compression_changes_the_bytes() {
    let p = CryptoProcessor::new(encryption_off(), compression_on(6)).unwrap();
    let data = vec![0u8; 10000];
    let stored = p.process_for_storage(&data).unwrap();
    assert_ne!(stored, data);
    assert!(stored.len() < data.len());
}

#[test]
fn encrypted_layout_is_nonce_then_ciphertext() {
    let p = CryptoProcessor::new(encryption_on(&test_key()), compression_off()).unwrap();
    let data = b"abc".to_vec();
    let stored = p.process_for_storage(&data).unwrap();
    // 12-byte nonce, ciphertext of equal length to the plaintext, 16-byte tag
    assert_eq!(stored.len(), 12 + data.len() + 16);
    assert_ne!(&stored[12..12 + data.len()], &data[..]);
}

#[test]
fn nonce_is_fresh_per_call() {
    let p = CryptoProcessor::new(encryption_on(&test_key()), compression_off()).unwrap();
    let data = b"same input".to_vec();
    let first = p.process_for_storage(&data).unwrap();
    let second = p.process_for_storage(&data).unwrap();
    assert_ne!(&first[..12], &second[..12]);
}

#[test]
fn tampering_any_ciphertext_bit_is_detected() {
    let p = CryptoProcessor::new(encryption_on(&test_key()), compression_off()).unwrap();
    let data = b"auth".to_vec();
    let stored = p.process_for_storage(&data).unwrap();
    for byte in 12..stored.len() {
        for bit in 0..8 {
            let mut tampered = stored.clone();
            tampered[byte] ^= 1u8 << bit;
            match p.process_for_retrieval(&tampered) {
                Err(CryptoError::AuthenticationFailure) => {}
                other => panic!("tampered payload was not rejected: {:?}", other.is_ok()),
            }
        }
    }
}

#[test]
fn wrong_key_is_detected() {
    let writer = CryptoProcessor::new(encryption_on(&test_key()), compression_off()).unwrap();
    let other_key = base64::engine::general_purpose::STANDARD.encode([8u8; 32]);
    let reader = CryptoProcessor::new(encryption_on(&other_key), compression_off()).unwrap();
    let stored = writer.process_for_storage(&b"abc".to_vec()).unwrap();
    assert_eq!(
        reader.process_for_retrieval(&stored),
        Err(CryptoError::AuthenticationFailure)
    );
}

#[test]
fn short_payload_is_rejected() {
    let p = CryptoProcessor::new(encryption_on(&test_key()), compression_off()).unwrap();
    assert_eq!(
        p.process_for_retrieval(&vec![0u8; 11]),
        Err(CryptoError::CiphertextTooShort)
    );
}

#[test]
fn corrupt_compressed_stream_is_rejected() {
    let p = CryptoProcessor::new(encryption_off(), compression_on(6)).unwrap();
    assert_eq!(
        p.process_for_retrieval(&b"not a gzip stream".to_vec()),
        Err(CryptoError::CorruptCompressedData)
    );
}

#[test]
fn construction_rejects_missing_key() {
    let cfg = EncryptionConfig { enabled: true, algorithm: "AES-256-GCM".to_string(), key: None };
    assert_eq!(
        CryptoProcessor::new(cfg, compression_off()).err(),
        Some(CryptoError::MissingKey)
    );
}

#[test]
fn construction_rejects_bad_base64() {
    assert_eq!(
        CryptoProcessor::new(encryption_on("!!!not base64!!!"), compression_off()).err(),
        Some(CryptoError::KeyNotBase64)
    );
}

#[test]
fn construction_rejects_wrong_key_length() {
    let short = base64::engine::general_purpose::STANDARD.encode([1u8; 16]);
    assert_eq!(
        CryptoProcessor::new(encryption_on(&short), compression_off()).err(),
        Some(CryptoError::BadKeyLength)
    );
}

#[test]
fn construction_rejects_unknown_algorithms() {
    let enc = EncryptionConfig {
        enabled: true,
        algorithm: "AES-128-GCM".to_string(),
        key: Some(test_key()),
    };
    assert_eq!(
        CryptoProcessor::new(enc, compression_off()).err(),
        Some(CryptoError::UnsupportedAlgorithm)
    );
    let comp = CompressionConfig { enabled: true, algorithm: "lz4".to_string(), level: 6 };
    assert_eq!(
        CryptoProcessor::new(encryption_off(), comp).err(),
        Some(CryptoError::UnsupportedAlgorithm)
    );
}

#[test]
fn disabled_stages_ignore_their_settings() {
    // algorithm names are only checked on enabled stages
    let enc = EncryptionConfig { enabled: false, algorithm: "bogus".to_string(), key: None };
    let comp = CompressionConfig { enabled: false, algorithm: "bogus".to_string(), level: 99 };
    assert!(CryptoProcessor::new(enc, comp).is_ok());
}
