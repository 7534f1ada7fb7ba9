//! Authenticated encryption with AES-256-GCM, without associated data.

use vstd::prelude::*;
use aes_gcm::aead::Aead;
use aes_gcm::{Aes256Gcm, Key, KeyInit, Nonce};

verus! {

/// The length of an AES-256 key, in bytes.
pub const CIPHER_KEY_LENGTH: usize = 32;

/// The length of a GCM nonce, in bytes.
pub const NONCE_LENGTH: usize = 12;

/// The length of a GCM authentication tag, in bytes.
pub const TAG_LENGTH: usize = 16;

/// The longest plaintext that the vault hands to the cipher, in bytes.
pub const MAX_PLAINTEXT_LENGTH: usize = 65_536;

/// The ciphertext, tag at the end, that AES-256-GCM gives for a plaintext
/// under a key and a nonce.
pub uninterp spec fn aes_gcm_sealed(key: Seq<u8>, nonce: Seq<u8>, plaintext: Seq<u8>) -> Seq<u8>;

/// The plaintext that AES-256-GCM gives back for a ciphertext under a key
/// and a nonce, if the tag verifies.
pub uninterp spec fn aes_gcm_opened(key: Seq<u8>, nonce: Seq<u8>, ciphertext: Seq<u8>) -> Option<
    Seq<u8>,
>;

/// `Aes256Gcm::encrypt` of the `aes-gcm` crate. On a plaintext below the
/// cipher's limit it returns the encrypted bytes followed by the 16-byte
/// tag; the result depends on nothing but the three inputs, and decrypting
/// it under the same key and nonce gives the plaintext back.
#[verifier::external_body]
pub(crate) fn seal(key: &[u8], nonce: &[u8], plaintext: &[u8]) -> (out: Option<Vec<u8>>)
    requires
        key@.len() == CIPHER_KEY_LENGTH,
        nonce@.len() == NONCE_LENGTH,
        plaintext@.len() <= MAX_PLAINTEXT_LENGTH,
    ensures
        match out {
            Some(ciphertext) => ciphertext@ == aes_gcm_sealed(key@, nonce@, plaintext@)
                && ciphertext@.len() == plaintext@.len() + TAG_LENGTH
                && aes_gcm_opened(key@, nonce@, ciphertext@) == Some(plaintext@),
            None => false,
        },
{
    let cipher = Aes256Gcm::new(Key::<Aes256Gcm>::from_slice(key));
    cipher.encrypt(Nonce::from_slice(nonce), plaintext).ok()
}

/// `Aes256Gcm::decrypt` of the `aes-gcm` crate. It recomputes the tag over
/// the ciphertext and compares it in constant time with the 16 bytes at the
/// end; if they agree it returns the plaintext, which is 16 bytes shorter
/// than the ciphertext, and otherwise nothing.
#[verifier::external_body]
pub(crate) fn open(key: &[u8], nonce: &[u8], ciphertext: &[u8]) -> (out: Option<Vec<u8>>)
    requires
        key@.len() == CIPHER_KEY_LENGTH,
        nonce@.len() == NONCE_LENGTH,
    ensures
        match out {
            Some(plaintext) => aes_gcm_opened(key@, nonce@, ciphertext@) == Some(plaintext@)
                && plaintext@.len() + TAG_LENGTH == ciphertext@.len(),
            None => aes_gcm_opened(key@, nonce@, ciphertext@) is None,
        },
{
    let cipher = Aes256Gcm::new(Key::<Aes256Gcm>::from_slice(key));
    cipher.decrypt(Nonce::from_slice(nonce), ciphertext).ok()
}

} // verus!
