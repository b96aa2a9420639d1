//! Authenticated encryption of stored credentials: AES-256-GCM under a
//! key derived from a master-key string, with a random 12-byte nonce
//! prepended to the ciphertext.
//!
//! The ciphers run behind trusted wrappers; the framing around them —
//! key derivation input, nonce placement, length checks — is verified.

use aes_gcm::aead::Aead;
use aes_gcm::aead::KeyInit;
use sha2::Digest;
use vstd::prelude::*;
use vstd::string::StringSliceAdditionalSpecFns;

verus! {

/// The SHA-256 digest of a byte sequence; 32 bytes, a function of the
/// input alone.
pub uninterp spec fn sha256_of(data: Seq<u8>) -> Seq<u8>;

/// What AES-256-GCM encryption returns for a key, nonce and plaintext: a
/// function of the three alone (the tag is appended).
pub uninterp spec fn aead_seal(key: Seq<u8>, nonce: Seq<u8>, plaintext: Seq<u8>) -> Seq<u8>;

/// What AES-256-GCM decryption returns for a key, nonce and ciphertext:
/// the plaintext when the tag authenticates, nothing otherwise.
pub uninterp spec fn aead_open(key: Seq<u8>, nonce: Seq<u8>, ciphertext: Seq<u8>) -> Option<
    Seq<u8>,
>;

/// Why encryption or decryption failed.
#[derive(Clone, Copy, Debug, PartialEq, Eq, Structural)]
pub enum CryptoError {
    /// The input is too short to hold a nonce and a tag.
    DataTooShort,
    /// The cipher refused to encrypt (the plaintext exceeds its limit).
    EncryptFailed,
    /// The tag did not authenticate: wrong key, nonce or data.
    DecryptFailed,
}

/// Relies on sha2::Sha256: a 32-byte digest of the input alone, named by
/// `sha256_of`.
#[verifier::external_body]
fn sha256_bytes(data: &[u8]) -> (r: Vec<u8>)
    ensures
        r@ == sha256_of(data@),
        r@.len() == 32,
{
    sha2::Sha256::digest(data).to_vec()
}

/// Relies on rand::random: 12 bytes drawn from the thread's generator;
/// nothing is promised of their values.
#[verifier::external_body]
fn random_nonce() -> (r: Vec<u8>)
    ensures
        r@.len() == 12,
{
    rand::random::<[u8; 12]>().to_vec()
}

/// Relies on aes_gcm::Aes256Gcm via aead::Aead::encrypt: deterministic in
/// key, nonce and plaintext (named by `aead_seal`), appending a 16-byte
/// tag; errs only when the plaintext exceeds the cipher's limit.
#[verifier::external_body]
fn aes256_gcm_seal(key: &[u8], nonce: &[u8], plaintext: &[u8]) -> (r: Result<Vec<u8>, CryptoError>)
    requires
        key@.len() == 32,
        nonce@.len() == 12,
    ensures
        r is Ok ==> r.unwrap()@ == aead_seal(key@, nonce@, plaintext@),
        r is Ok ==> r.unwrap()@.len() == plaintext@.len() + 16,
        r is Err ==> r->Err_0 == CryptoError::EncryptFailed,
{
    let cipher = match aes_gcm::Aes256Gcm::new_from_slice(key) {
        Ok(c) => c,
        Err(_) => return Err(CryptoError::EncryptFailed),
    };
    let nonce_arr = match nonce.try_into() {
        Ok(n) => n,
        Err(_) => return Err(CryptoError::EncryptFailed),
    };
    cipher.encrypt(nonce_arr, plaintext).map_err(|_| CryptoError::EncryptFailed)
}

/// Relies on aes_gcm::Aes256Gcm via aead::Aead::decrypt: deterministic in
/// key, nonce and ciphertext (named by `aead_open`), recovering exactly
/// what `aead_seal` produced and failing exactly when the tag does not
/// authenticate.
#[verifier::external_body]
fn aes256_gcm_open(key: &[u8], nonce: &[u8], ciphertext: &[u8]) -> (r: Result<
    Vec<u8>,
    CryptoError,
>)
    requires
        key@.len() == 32,
        nonce@.len() == 12,
    ensures
        r is Ok <==> aead_open(key@, nonce@, ciphertext@) is Some,
        r is Ok ==> r.unwrap()@ == aead_open(key@, nonce@, ciphertext@).unwrap(),
        r is Err ==> r->Err_0 == CryptoError::DecryptFailed,
        forall|p: Seq<u8>|
            ciphertext@ == #[trigger] aead_seal(key@, nonce@, p) ==> r is Ok && r.unwrap()@ == p,
{
    let cipher = match aes_gcm::Aes256Gcm::new_from_slice(key) {
        Ok(c) => c,
        Err(_) => return Err(CryptoError::DecryptFailed),
    };
    let nonce_arr = match nonce.try_into() {
        Ok(n) => n,
        Err(_) => return Err(CryptoError::DecryptFailed),
    };
    cipher.decrypt(nonce_arr, ciphertext).map_err(|_| CryptoError::DecryptFailed)
}

/// Encrypt `plaintext` under a key derived from `master_key`; the result
/// is the random 12-byte nonce followed by ciphertext and tag.
pub fn encrypt(plaintext: &[u8], master_key: &str) -> (r: Result<Vec<u8>, CryptoError>)
    ensures
        r is Ok ==> {
            let o = r.unwrap()@;
            &&& o.len() == plaintext@.len() + 28
            &&& o.skip(12) == aead_seal(
                sha256_of(master_key.spec_bytes()),
                o.take(12),
                plaintext@,
            )
        },
{
    let key = sha256_bytes(master_key.as_bytes());
    let mut nonce = random_nonce();
    let ghost nonce_view = nonce@;
    let mut ciphertext = match aes256_gcm_seal(key.as_slice(), nonce.as_slice(), plaintext) {
        Ok(c) => c,
        Err(e) => {
            return Err(e);
        },
    };
    let ghost ct_view = ciphertext@;
    let mut out: Vec<u8> = Vec::new();
    out.append(&mut nonce);
    out.append(&mut ciphertext);
    proof {
        assert(out@.take(12) =~= nonce_view);
        assert(out@.skip(12) =~= ct_view);
    }
    Ok(out)
}

/// Decrypt what `encrypt` produced: split off the 12-byte nonce, derive
/// the key the same way and open the remainder. Anything shorter than a
/// nonce and a tag is rejected outright; anything the tag does not
/// authenticate fails; and whatever was sealed under the same master key
/// and nonce comes back exactly.
pub fn decrypt(data: &[u8], master_key: &str) -> (r: Result<Vec<u8>, CryptoError>)
    ensures
        data@.len() < 13 <==> r == Err::<Vec<u8>, CryptoError>(CryptoError::DataTooShort),
        data@.len() >= 13 ==> {
            let key = sha256_of(master_key.spec_bytes());
            let nonce = data@.take(12);
            let ct = data@.skip(12);
            &&& (r is Ok <==> aead_open(key, nonce, ct) is Some)
            &&& r is Ok ==> r.unwrap()@ == aead_open(key, nonce, ct).unwrap()
            &&& !(aead_open(key, nonce, ct) is Some) ==> r == Err::<Vec<u8>, CryptoError>(
                CryptoError::DecryptFailed,
            )
            &&& forall|p: Seq<u8>|
                ct == #[trigger] aead_seal(key, nonce, p) ==> r is Ok && r.unwrap()@ == p
        },
{
    if data.len() < 13 {
        return Err(CryptoError::DataTooShort);
    }
    let key = sha256_bytes(master_key.as_bytes());
    let nonce = vstd::slice::slice_subrange(data, 0, 12);
    let ciphertext = vstd::slice::slice_subrange(data, 12, data.len());
    proof {
        assert(nonce@ =~= data@.take(12));
        assert(ciphertext@ =~= data@.skip(12));
    }
    aes256_gcm_open(key.as_slice(), nonce, ciphertext)
}

} // verus!
