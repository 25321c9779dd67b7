//! Encryption of share notes: AES-256-GCM under a key derived from the share
//! key with SHA-256, a random 12-byte nonce, and base64 of `nonce || ciphertext`.

use aes_gcm::aead::{Aead, KeyInit};
use aes_gcm::aead::rand_core::RngCore;
use crate::utility::encoding::{base64_decode, base64_encode, base64_encode_spec, str_bytes, string_from_utf8};
use sha2::Digest;
use vstd::prelude::*;

verus! {

pub const NONCE_SIZE: usize = 12;

/// Length of the authentication tag that AES-GCM appends.
pub const TAG_SIZE: usize = 16;

/// The largest plaintext that AES-GCM encrypts (`aes_gcm::P_MAX`).
pub const AES_GCM_P_MAX: u64 = 68719476736;

/// The largest message part (the ciphertext without its tag) that AES-GCM
/// decrypts (`aes_gcm::C_MAX`, `P_MAX + 16`).
pub const AES_GCM_C_MAX: u64 = 68719476752;

/// What `Sha256::digest` returns for some bytes.
pub uninterp spec fn sha256_digest(data: Seq<u8>) -> Seq<u8>;

/// The output of AES-256-GCM (no associated data) for a plaintext: the
/// CTR-mode keystream applied to it, followed by the 16-byte GHASH tag of
/// the result. `Aes256Gcm::encrypt` returns it for plaintexts of at most
/// `P_MAX` bytes; `Aes256Gcm::decrypt` inverts it for message parts of at
/// most `C_MAX` bytes.
pub uninterp spec fn aes256gcm_seal(key: Seq<u8>, nonce: Seq<u8>, plaintext: Seq<u8>) -> Seq<u8>;

/// The key that notes of a share are encrypted under: SHA-256 of the UTF-8
/// bytes of the password (the share key).
pub open spec fn note_key(password: Seq<char>) -> Seq<u8> {
    sha256_digest(vstd::utf8::encode_utf8(password))
}

/// `plaintext` is what `ciphertext` opens to under `key` and `nonce`: a
/// plaintext of at most `C_MAX` bytes whose AES-GCM output is the ciphertext.
pub open spec fn opens_to(key: Seq<u8>, nonce: Seq<u8>, ciphertext: Seq<u8>, plaintext: Seq<u8>) -> bool {
    plaintext.len() <= AES_GCM_C_MAX && aes256gcm_seal(key, nonce, plaintext) == ciphertext
}

/// `encoded` is a note `text` sealed under `password`: the base64 of a 12-byte
/// nonce followed by the AES-GCM encryption of the UTF-8 bytes of `text`.
pub open spec fn is_sealed_note(encoded: Seq<char>, text: Seq<char>, password: Seq<char>) -> bool {
    exists|nonce: Seq<u8>, ct: Seq<u8>|
        {
            &&& nonce.len() == NONCE_SIZE
            &&& vstd::utf8::encode_utf8(text).len() <= AES_GCM_P_MAX
            &&& ct == aes256gcm_seal(note_key(password), nonce, vstd::utf8::encode_utf8(text))
            &&& ct.len() == vstd::utf8::encode_utf8(text).len() + TAG_SIZE
            &&& encoded == base64_encode_spec(nonce + ct)
        }
}

/// `encoded` decrypts under `password` to the text `s`: it is the base64 of
/// a nonce and a ciphertext that opens to the UTF-8 encoding of `s`.
pub open spec fn decrypts_to(encoded: Seq<char>, password: Seq<char>, s: Seq<char>) -> bool {
    exists|d: Seq<u8>, p: Seq<u8>|
        {
            &&& base64_encode_spec(d) == encoded
            &&& d.len() >= NONCE_SIZE + TAG_SIZE
            &&& opens_to(note_key(password), d.take(12), d.skip(12), p)
            &&& vstd::utf8::valid_utf8(p)
            &&& s == vstd::utf8::decode_utf8(p)
        }
}

/// Why a note could not be encrypted or decrypted.
#[derive(Debug, Clone, Copy, PartialEq, Eq)]
pub enum NoteCipherError {
    EncryptionFailed,
    InvalidBase64,
    InvalidDataLength,
    DecryptionFailed,
    InvalidUtf8,
}

impl NoteCipherError {
    pub open spec fn text(&self) -> Seq<char> {
        match self {
            NoteCipherError::EncryptionFailed => "encryption failed"@,
            NoteCipherError::InvalidBase64 => "invalid base64"@,
            NoteCipherError::InvalidDataLength => "invalid data length"@,
            NoteCipherError::DecryptionFailed => "decryption failed"@,
            NoteCipherError::InvalidUtf8 => "invalid utf8"@,
        }
    }

    /// The text of the error, as its `Display` prints it.
    pub fn as_str(&self) -> (res: &'static str)
        ensures
            res@ == self.text(),
    {
        match self {
            NoteCipherError::EncryptionFailed => "encryption failed",
            NoteCipherError::InvalidBase64 => "invalid base64",
            NoteCipherError::InvalidDataLength => "invalid data length",
            NoteCipherError::DecryptionFailed => "decryption failed",
            NoteCipherError::InvalidUtf8 => "invalid utf8",
        }
    }
}

/// Calls `Sha256::new`, `update` and `finalize` on the bytes; the digest is
/// named `sha256_digest` and is 32 bytes long.
#[verifier::external_body]
pub(crate) fn sha256(data: &[u8]) -> (res: Vec<u8>)
    ensures
        res@ == sha256_digest(data@),
        res@.len() == 32,
{
    let mut hasher = sha2::Sha256::new();
    hasher.update(data);
    hasher.finalize().to_vec()
}

/// The key of a password: SHA-256 of its UTF-8 bytes.
fn derive_key(password: &str) -> (res: Vec<u8>)
    ensures
        res@ == note_key(password@),
        res@.len() == 32,
{
    let bytes = str_bytes(password);
    sha256(bytes.as_slice())
}

/// Calls `OsRng::fill_bytes` on a 12-byte buffer. The bytes are random; only
/// their number is stated. (`fill_bytes` panics if the operating system's
/// random source fails.)
#[verifier::external_body]
fn random_nonce() -> (res: Vec<u8>)
    ensures
        res@.len() == NONCE_SIZE,
{
    let mut nonce_bytes = [0u8; NONCE_SIZE];
    aes_gcm::aead::OsRng.fill_bytes(&mut nonce_bytes);
    nonce_bytes.to_vec()
}

/// Calls `Aes256Gcm::encrypt` with no associated data. It fails exactly when
/// the plaintext is longer than `P_MAX`; otherwise it returns the ciphertext
/// followed by the 16-byte tag, named `aes256gcm_seal`.
#[verifier::external_body]
fn aes_gcm_encrypt(key: &[u8], nonce: &[u8], plaintext: &[u8]) -> (res: Option<Vec<u8>>)
    requires
        key@.len() == 32,
        nonce@.len() == NONCE_SIZE,
    ensures
        res is Some <==> plaintext@.len() <= AES_GCM_P_MAX,
        res matches Some(c) ==> c@ == aes256gcm_seal(key@, nonce@, plaintext@) && c@.len()
            == plaintext@.len() + TAG_SIZE,
{
    let cipher = aes_gcm::Aes256Gcm::new(aes_gcm::Key::<aes_gcm::Aes256Gcm>::from_slice(key));
    cipher.encrypt(aes_gcm::Nonce::from_slice(nonce), plaintext).ok()
}

/// Calls `Aes256Gcm::decrypt` with no associated data. It splits off the
/// 16-byte tag, refuses a message part longer than `C_MAX`, and otherwise
/// checks the tag and applies the keystream. So it succeeds exactly when the
/// ciphertext is the AES-GCM output of some plaintext of at most `C_MAX`
/// bytes under the key and nonce, returns that plaintext, and the
/// ciphertext is 16 bytes longer than it.
#[verifier::external_body]
fn aes_gcm_decrypt(key: &[u8], nonce: &[u8], ciphertext: &[u8]) -> (res: Option<Vec<u8>>)
    requires
        key@.len() == 32,
        nonce@.len() == NONCE_SIZE,
    ensures
        res is Some <==> exists|p: Seq<u8>| opens_to(key@, nonce@, ciphertext@, p),
        res matches Some(x) ==> forall|p: Seq<u8>|
            #[trigger] opens_to(key@, nonce@, ciphertext@, p) <==> x@ == p,
        res matches Some(x) ==> ciphertext@.len() == x@.len() + TAG_SIZE,
{
    let cipher = aes_gcm::Aes256Gcm::new(aes_gcm::Key::<aes_gcm::Aes256Gcm>::from_slice(key));
    cipher.decrypt(aes_gcm::Nonce::from_slice(nonce), ciphertext).ok()
}

/// Encrypts a note under a password. On success the result is a sealed note
/// of `text` under `password` (for some random nonce); it fails exactly when
/// the text is longer than AES-GCM accepts.
pub fn encrypt(text: &str, password: &str) -> (res: Result<String, NoteCipherError>)
    requires
        vstd::utf8::encode_utf8(text@).len() + NONCE_SIZE + TAG_SIZE <= usize::MAX / 4 * 3,
    ensures
        res is Ok <==> vstd::utf8::encode_utf8(text@).len() <= AES_GCM_P_MAX,
        res matches Ok(c) ==> is_sealed_note(c@, text@, password@),
        res matches Err(e) ==> e == NoteCipherError::EncryptionFailed,
{
    let key = derive_key(password);
    let nonce = random_nonce();
    let pt = str_bytes(text);
    let ct = match aes_gcm_encrypt(key.as_slice(), nonce.as_slice(), pt.as_slice()) {
        Some(c) => c,
        None => {
            return Err(NoteCipherError::EncryptionFailed);
        },
    };
    let ghost ct_seq = ct@;
    let mut output: Vec<u8> = Vec::new();
    let mut i: usize = 0;
    while i < nonce.len()
        invariant
            i <= nonce@.len(),
            output@ == nonce@.subrange(0, i as int),
        decreases nonce@.len() - i,
    {
        output.push(nonce[i]);
        i = i + 1;
    }
    let mut j: usize = 0;
    while j < ct.len()
        invariant
            nonce@.len() == NONCE_SIZE,
            j <= ct@.len(),
            output@ == nonce@ + ct@.subrange(0, j as int),
        decreases ct@.len() - j,
    {
        output.push(ct[j]);
        j = j + 1;
    }
    assert(ct@.subrange(0, ct@.len() as int) =~= ct@);
    assert(nonce@.subrange(0, nonce@.len() as int) =~= nonce@);
    assert(output@.len() == pt@.len() + NONCE_SIZE + TAG_SIZE);
    let encoded = base64_encode(output.as_slice());
    assert(is_sealed_note(encoded@, text@, password@)) by {
        assert(encoded@ == base64_encode_spec(nonce@ + ct@));
    }
    Ok(encoded)
}

/// Decrypts a note. It succeeds exactly when `encoded` is the base64 of a
/// nonce followed by a ciphertext that opens under the password's key to
/// valid UTF-8, and each failure names the first check that failed. A sealed
/// note of `t` under `password` (what `encrypt` returns) always decrypts to `t`.
pub fn decrypt(encoded: &str, password: &str) -> (res: Result<String, NoteCipherError>)
    ensures
        match res {
            Ok(s) => decrypts_to(encoded@, password@, s@),
            Err(NoteCipherError::InvalidBase64) => !exists|d: Seq<u8>|
                base64_encode_spec(d) == encoded@,
            Err(NoteCipherError::InvalidDataLength) => exists|d: Seq<u8>|
                base64_encode_spec(d) == encoded@ && d.len() < NONCE_SIZE + TAG_SIZE,
            Err(NoteCipherError::DecryptionFailed) => exists|d: Seq<u8>|
                {
                    &&& base64_encode_spec(d) == encoded@
                    &&& d.len() >= NONCE_SIZE + TAG_SIZE
                    &&& !exists|p: Seq<u8>| opens_to(note_key(password@), d.take(12), d.skip(12), p)
                },
            Err(NoteCipherError::InvalidUtf8) => exists|d: Seq<u8>, p: Seq<u8>|
                {
                    &&& base64_encode_spec(d) == encoded@
                    &&& d.len() >= NONCE_SIZE + TAG_SIZE
                    &&& opens_to(note_key(password@), d.take(12), d.skip(12), p)
                    &&& !vstd::utf8::valid_utf8(p)
                },
            Err(NoteCipherError::EncryptionFailed) => false,
        },
        res is Err ==> forall|t: Seq<char>| !decrypts_to(encoded@, password@, t),
        forall|t: Seq<char>|
            #[trigger] is_sealed_note(encoded@, t, password@) ==> (res matches Ok(s) && s@ == t),
{
    let data = match base64_decode(encoded) {
        Some(d) => d,
        None => {
            return Err(NoteCipherError::InvalidBase64);
        },
    };
    assert forall|t: Seq<char>| #[trigger]
        is_sealed_note(encoded@, t, password@) implies {
        &&& data@.len() >= NONCE_SIZE + TAG_SIZE
        &&& opens_to(
            note_key(password@),
            data@.take(12),
            data@.skip(12),
            vstd::utf8::encode_utf8(t),
        )
    } by {
        let (n, c) = choose|nonce: Seq<u8>, ct: Seq<u8>|
            {
                &&& nonce.len() == NONCE_SIZE
                &&& vstd::utf8::encode_utf8(t).len() <= AES_GCM_P_MAX
                &&& ct == aes256gcm_seal(note_key(password@), nonce, vstd::utf8::encode_utf8(t))
                &&& ct.len() == vstd::utf8::encode_utf8(t).len() + TAG_SIZE
                &&& encoded@ == base64_encode_spec(nonce + ct)
            };
        assert(base64_encode_spec(n + c) == encoded@);
        assert(data@ == n + c);
        assert(data@.take(12) =~= n);
        assert(data@.skip(12) =~= c);
    }
    if data.len() < NONCE_SIZE + TAG_SIZE {
        return Err(NoteCipherError::InvalidDataLength);
    }
    let key = derive_key(password);
    let nonce = slice_bytes(data.as_slice(), 0, NONCE_SIZE);
    let ciphertext = slice_bytes(data.as_slice(), NONCE_SIZE, data.len());
    assert(nonce@ =~= data@.take(12));
    assert(ciphertext@ =~= data@.skip(12));
    let plaintext = match aes_gcm_decrypt(key.as_slice(), nonce.as_slice(), ciphertext.as_slice()) {
        Some(p) => p,
        None => {
            return Err(NoteCipherError::DecryptionFailed);
        },
    };
    let ghost p = plaintext@;
    match string_from_utf8(plaintext) {
        Some(s) => {
            assert forall|t: Seq<char>| #[trigger]
                is_sealed_note(encoded@, t, password@) implies s@ == t by {
                assert(p == vstd::utf8::encode_utf8(t));
                vstd::utf8::encode_utf8_decode_utf8(t);
            }
            Ok(s)
        },
        None => {
            assert forall|t: Seq<char>| #[trigger]
                is_sealed_note(encoded@, t, password@) implies false by {
                assert(p == vstd::utf8::encode_utf8(t));
                vstd::utf8::encode_utf8_valid_utf8(t);
            }
            Err(NoteCipherError::InvalidUtf8)
        },
    }
}

/// A note sealed under a password decrypts, under that password, to the
/// text it was sealed from.
pub proof fn law_sealed_note_decrypts(encoded: Seq<char>, text: Seq<char>, password: Seq<char>)
    requires
        is_sealed_note(encoded, text, password),
    ensures
        decrypts_to(encoded, password, text),
{
    let (n, c) = choose|nonce: Seq<u8>, ct: Seq<u8>|
        {
            &&& nonce.len() == NONCE_SIZE
            &&& vstd::utf8::encode_utf8(text).len() <= AES_GCM_P_MAX
            &&& ct == aes256gcm_seal(note_key(password), nonce, vstd::utf8::encode_utf8(text))
            &&& ct.len() == vstd::utf8::encode_utf8(text).len() + TAG_SIZE
            &&& encoded == base64_encode_spec(nonce + ct)
        };
    let d = n + c;
    let p = vstd::utf8::encode_utf8(text);
    assert(d.take(12) =~= n);
    assert(d.skip(12) =~= c);
    vstd::utf8::encode_utf8_valid_utf8(text);
    vstd::utf8::encode_utf8_decode_utf8(text);
    assert(opens_to(note_key(password), d.take(12), d.skip(12), p));
}

/// The bytes `v[lo..hi]`.
fn slice_bytes(v: &[u8], lo: usize, hi: usize) -> (res: Vec<u8>)
    requires
        lo <= hi <= v@.len(),
    ensures
        res@ == v@.subrange(lo as int, hi as int),
{
    let mut res: Vec<u8> = Vec::new();
    let mut i: usize = lo;
    while i < hi
        invariant
            lo <= i <= hi <= v@.len(),
            res@ == v@.subrange(lo as int, i as int),
        decreases hi - i,
    {
        res.push(v[i]);
        i = i + 1;
    }
    res
}

} // verus!
