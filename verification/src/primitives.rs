//! The cryptographic primitives, taken from the RustCrypto crates and the
//! `rand` crate. Everything here is trusted: each item's contract restates
//! what the crate's source shows, and the library's own code is proved
//! against these contracts.

use vstd::prelude::*;
use aes_gcm::aead::Aead;
use aes_gcm::{Aes256Gcm, KeyInit, Nonce};
use pbkdf2::pbkdf2_hmac;
use rand::RngCore;
use sha2::Sha256;

verus! {

/// Longest plaintext AES-GCM accepts (`aes_gcm::P_MAX`, 2^36 bytes).
pub const AES_GCM_MAX_PLAINTEXT: u64 = 68719476736;

/// Length of the authentication tag that AES-GCM appends to a ciphertext.
pub const AES_GCM_TAG_LEN: usize = 16;

/// The ciphertext (tag appended) that AES-256-GCM produces for `plaintext`
/// under `key` and `nonce`, with no associated data.
pub uninterp spec fn aes256gcm_sealed(key: Seq<u8>, nonce: Seq<u8>, plaintext: Seq<u8>) -> Seq<u8>;

/// What AES-256-GCM decryption of `ciphertext` under `key` and `nonce` gives:
/// the plaintext, or `None` when authentication fails.
pub uninterp spec fn aes256gcm_opened(key: Seq<u8>, nonce: Seq<u8>, ciphertext: Seq<u8>) -> Option<Seq<u8>>;

/// The 32 bytes PBKDF2-HMAC-SHA256 derives from the UTF-8 bytes of
/// `password`, with `salt` and `rounds` iterations.
pub uninterp spec fn pbkdf2_hmac_sha256(password: Seq<char>, salt: Seq<u8>, rounds: u32) -> Seq<u8>;

/// `Aead::encrypt` of `aes_gcm::Aes256Gcm` (cipher built with `KeyInit::new`
/// from the 32-byte key), with no associated data.
///
/// Claims: the call fails exactly when the plaintext is longer than
/// `aes_gcm::P_MAX`; otherwise it returns the ciphertext named by
/// `aes256gcm_sealed`, which is the plaintext's length plus the 16-byte tag
/// (the tag is appended to the encrypted buffer).
#[verifier::external_body]
pub(crate) fn aes256gcm_seal(key: &[u8; 32], nonce: &[u8], plaintext: &[u8]) -> (c: Option<Vec<u8>>)
    requires
        nonce@.len() == 12,
    ensures
        c is Some <==> plaintext@.len() <= AES_GCM_MAX_PLAINTEXT,
        c matches Some(v) ==> v@ == aes256gcm_sealed(key@, nonce@, plaintext@),
        c matches Some(v) ==> v@.len() == plaintext@.len() + AES_GCM_TAG_LEN,
{
    Aes256Gcm::new(key.into()).encrypt(Nonce::from_slice(nonce), plaintext).ok()
}

/// `Aead::decrypt` of `aes_gcm::Aes256Gcm` (cipher built with `KeyInit::new`
/// from the 32-byte key), with no associated data.
///
/// Claims: the result is the one named by `aes256gcm_opened`; a ciphertext
/// shorter than the tag is refused; and decrypting what `Aead::encrypt`
/// produced under the same key and nonce gives the plaintext back (AEAD
/// correctness).
#[verifier::external_body]
pub(crate) fn aes256gcm_open(key: &[u8; 32], nonce: &[u8], ciphertext: &[u8]) -> (p: Option<Vec<u8>>)
    requires
        nonce@.len() == 12,
    ensures
        p is None <==> aes256gcm_opened(key@, nonce@, ciphertext@) is None,
        p matches Some(v) ==> aes256gcm_opened(key@, nonce@, ciphertext@) == Some(v@),
        ciphertext@.len() < AES_GCM_TAG_LEN ==> p is None,
        p is None ==> forall|m: Seq<u8>|
            m.len() <= AES_GCM_MAX_PLAINTEXT ==> #[trigger] aes256gcm_sealed(key@, nonce@, m)
                != ciphertext@,
        p matches Some(v) ==> forall|m: Seq<u8>|
            m.len() <= AES_GCM_MAX_PLAINTEXT && #[trigger] aes256gcm_sealed(key@, nonce@, m)
                == ciphertext@ ==> v@ == m,
{
    Aes256Gcm::new(key.into()).decrypt(Nonce::from_slice(nonce), ciphertext).ok()
}

/// `pbkdf2::pbkdf2_hmac::<sha2::Sha256>` filling a 32-byte buffer from the
/// password's UTF-8 bytes.
///
/// Claims: the output is the one named by `pbkdf2_hmac_sha256` for these
/// arguments (the function is deterministic and, with HMAC, never fails).
#[verifier::external_body]
pub(crate) fn pbkdf2_sha256(password: &str, salt: &[u8], rounds: u32) -> (key: [u8; 32])
    ensures
        key@ == pbkdf2_hmac_sha256(password@, salt@, rounds),
{
    let mut key = [0u8; 32];
    pbkdf2_hmac::<Sha256>(password.as_bytes(), salt, rounds, &mut key);
    key
}

/// `RngCore::fill_bytes` on `rand::thread_rng()`, over an `N`-byte buffer.
///
/// The bytes are random, so nothing is stated of them.
#[verifier::external_body]
pub(crate) fn random_bytes<const N: usize>() -> (b: [u8; N]) {
    let mut b = [0u8; N];
    rand::thread_rng().fill_bytes(&mut b);
    b
}

} // verus!
