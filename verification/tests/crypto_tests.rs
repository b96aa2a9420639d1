use finops_engine::crypto::{decrypt, encrypt, CryptoError};

#[test]
fn test_encrypt_decrypt_roundtrip() {
    let key = "test-encryption-key-32-bytes-ok!";
    let plaintext = b"hello world";
    let encrypted = encrypt(plaintext, key).unwrap();
    let decrypted = decrypt(&encrypted, key).unwrap();
    assert_eq!(decrypted, plaintext);
}

#[test]
fn test_encrypt_layout() {
    // 12-byte nonce, ciphertext, 16-byte tag; distinct from the plaintext.
    let encrypted = encrypt(b"abc", "some master key").unwrap();
    assert_eq!(encrypted.len(), 3 + 28);
    assert_ne!(&encrypted[12..15], b"abc");
}

#[test]
fn test_encrypt_empty_plaintext_roundtrip() {
    let key = "k";
    let encrypted = encrypt(b"", key).unwrap();
    assert_eq!(encrypted.len(), 28);
    assert_eq!(decrypt(&encrypted, key).unwrap(), b"");
}

#[test]
fn test_decrypt_too_short() {
    assert_eq!(decrypt(&[0u8; 5], "key"), Err(CryptoError::DataTooShort));
    assert_eq!(decrypt(&[], "key"), Err(CryptoError::DataTooShort));
    assert_eq!(decrypt(&[0u8; 12], "key"), Err(CryptoError::DataTooShort));
}

#[test]
fn test_decrypt_wrong_key_fails() {
    let encrypted = encrypt(b"secret credentials", "right key").unwrap();
    assert_eq!(decrypt(&encrypted, "wrong key"), Err(CryptoError::DecryptFailed));
}

#[test]
fn test_decrypt_tampered_data_fails() {
    let mut encrypted = encrypt(b"secret credentials", "right key").unwrap();
    let last = encrypted.len() - 1;
    encrypted[last] ^= 0x01;
    assert_eq!(decrypt(&encrypted, "right key"), Err(CryptoError::DecryptFailed));
}
