use sha2::{Digest, Sha256};
use tshare::features::share::retrieve::HashCheck;
use tshare::utility::hash::{hash, verify};

#[test]
fn hash_is_hex_sha256_of_secret_zero_value() {
    let mut h = Sha256::new();
    h.update(b"server-secret");
    h.update([0u8]);
    h.update("رمز".as_bytes());
    let expected: String = h.finalize().iter().map(|b| format!("{b:02x}")).collect();
    assert_eq!(hash("server-secret", "رمز"), expected);
    assert_eq!(hash("s", "v").len(), 64);
    assert_ne!(hash("s", "v"), hash("s2", "v"));
}

#[test]
fn verification_compares_hashes() {
    let stored = hash("k", "1.2.3.4");
    assert_eq!(verify("k", "1.2.3.4", &stored), HashCheck::Match);
    assert_eq!(verify("k", "1.2.3.5", &stored), HashCheck::Mismatch);
    assert_eq!(verify("other", "1.2.3.4", &stored), HashCheck::Mismatch);
}
