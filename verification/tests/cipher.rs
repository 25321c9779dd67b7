use aes_gcm::aead::{Aead, KeyInit};
use base64::Engine;
use sha2::{Digest, Sha256};
use tshare::utility::encrypt::{decrypt, encrypt, NoteCipherError};

#[test]
fn encrypted_note_decrypts_back() {
    let sealed = encrypt("hello, world", "secret").unwrap();
    assert_ne!(sealed, "hello, world");
    assert_eq!(decrypt(&sealed, "secret").unwrap(), "hello, world");
}

#[test]
fn encryption_uses_a_fresh_nonce() {
    let a = encrypt("same", "pw").unwrap();
    let b = encrypt("same", "pw").unwrap();
    assert_ne!(a, b);
    let raw = base64::engine::general_purpose::STANDARD.decode(&a).unwrap();
    assert_eq!(raw.len(), 12 + 4 + 16);
}

#[test]
fn wrong_password_fails() {
    let sealed = encrypt("text", "right").unwrap();
    assert_eq!(decrypt(&sealed, "wrong"), Err(NoteCipherError::DecryptionFailed));
}

#[test]
fn decryption_errors() {
    assert_eq!(decrypt("***", "k"), Err(NoteCipherError::InvalidBase64));
    assert_eq!(decrypt("AAAA", "k"), Err(NoteCipherError::InvalidDataLength));
    assert_eq!(NoteCipherError::InvalidUtf8.as_str(), "invalid utf8");
    assert_eq!(NoteCipherError::EncryptionFailed.as_str(), "encryption failed");
}

#[test]
fn non_utf8_plaintext_is_refused() {
    let key = Sha256::digest("k".as_bytes());
    let cipher = aes_gcm::Aes256Gcm::new_from_slice(&key).unwrap();
    let nonce = [7u8; 12];
    let ct = cipher.encrypt(aes_gcm::Nonce::from_slice(&nonce), &[0xFFu8, 0xFE][..]).unwrap();
    let mut data = nonce.to_vec();
    data.extend_from_slice(&ct);
    let encoded = base64::engine::general_purpose::STANDARD.encode(&data);
    assert_eq!(decrypt(&encoded, "k"), Err(NoteCipherError::InvalidUtf8));
}
