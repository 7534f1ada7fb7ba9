//! The key vault: a secret key locked under a password, and unlocked again.
//!
//! Locking stretches the password with Argon2id under a salt drawn for this
//! one call, and encrypts the key bytes with AES-256-GCM under the derived
//! key and a nonce drawn for this one call. The blob keeps salt, nonce, work
//! parameters and ciphertext; unlocking derives the same key from them and
//! the password, and decrypts.

use vstd::prelude::*;
use vstd::slice::{slice_subrange, slice_to_vec};
use vstd::utf8::encode_utf8;
use crate::aead::{aes_gcm_opened, aes_gcm_sealed, open, seal, NONCE_LENGTH};
use crate::bytes::{append, be32, from_be32, lemma_be32_round_trip, push_be32, read_be32, wipe};
use crate::entropy::random_bytes;
use crate::errors::{KeyError, VaultError, WalletError};
use crate::hex::{
    decode_hex, encode_hex, hex_decoded, hex_encoded, is_hex_text, lemma_hex_encoded_is_hex_text,
    lemma_hex_round_trip,
};
use crate::kdf::{argon2id_key, stretch_password, KdfParams, MAX_INPUT_LENGTH};
use crate::key::KeyMaterial;
use crate::scalar::is_valid_scalar;
use crate::text::ascii_to_string;

verus! {

/// The length of the salt, in bytes.
pub const SALT_LENGTH: usize = 16;

/// The length of a sealed key: 32 bytes and the tag.
pub const SEALED_KEY_LENGTH: usize = 48;

/// The length of the stored layout of a blob, in bytes.
pub const LAYOUT_LENGTH: usize = 88;

/// The length of the text form of a blob, in hexadecimal digits.
pub const TEXT_LENGTH: usize = 176;

/// What a blob holds.
pub struct BlobView {
    pub salt: Seq<u8>,
    pub nonce: Seq<u8>,
    pub kdf_params: KdfParams,
    pub ciphertext: Seq<u8>,
}

impl BlobView {
    /// Salt, nonce and ciphertext have the sizes of the stored layout.
    pub open spec fn well_sized(self) -> bool {
        &&& self.salt.len() == SALT_LENGTH
        &&& self.nonce.len() == NONCE_LENGTH
        &&& self.ciphertext.len() == SEALED_KEY_LENGTH
    }
}

/// A secret key encrypted under a password.
#[derive(Debug)]
pub struct EncryptedKeyBlob {
    salt: Vec<u8>,
    nonce: Vec<u8>,
    kdf_params: KdfParams,
    ciphertext: Vec<u8>,
}

/// Whether the key-derivation function takes these work parameters and a
/// password of this length.
pub open spec fn kdf_accepts(params: KdfParams, password: Seq<u8>) -> bool {
    params.valid() && password.len() <= MAX_INPUT_LENGTH
}

/// The symmetric key derived from a password.
pub open spec fn derived_key(password: Seq<u8>, salt: Seq<u8>, params: KdfParams) -> Seq<u8> {
    argon2id_key(password, salt, params.time_cost, params.memory_kib, params.parallelism)
}

/// The blob that locking gives under a given salt and nonce.
pub open spec fn sealed_blob(
    key: Seq<u8>,
    password: Seq<u8>,
    params: KdfParams,
    salt: Seq<u8>,
    nonce: Seq<u8>,
) -> BlobView {
    BlobView {
        salt,
        nonce,
        kdf_params: params,
        ciphertext: aes_gcm_sealed(derived_key(password, salt, params), nonce, key),
    }
}

/// What locking gives under a given salt and nonce.
pub open spec fn lock_outcome(
    key: Seq<u8>,
    password: Seq<u8>,
    params: KdfParams,
    salt: Seq<u8>,
    nonce: Seq<u8>,
) -> Result<BlobView, VaultError> {
    if salt.len() != SALT_LENGTH || nonce.len() != NONCE_LENGTH {
        Err(VaultError::MalformedBlob)
    } else if !kdf_accepts(params, password) {
        Err(VaultError::KdfFailure)
    } else {
        Ok(sealed_blob(key, password, params, salt, nonce))
    }
}

/// What unlocking gives: the key bytes if the work parameters are in range,
/// the tag verifies under the key derived from the password, and what was
/// sealed is a secret key.
pub open spec fn unlocked(blob: BlobView, password: Seq<u8>) -> Result<Seq<u8>, VaultError> {
    if !kdf_accepts(blob.kdf_params, password) {
        Err(VaultError::KdfFailure)
    } else {
        match aes_gcm_opened(
            derived_key(password, blob.salt, blob.kdf_params),
            blob.nonce,
            blob.ciphertext,
        ) {
            Some(plaintext) => if is_valid_scalar(plaintext) {
                Ok(plaintext)
            } else {
                Err(VaultError::WrongPassword)
            },
            None => Err(VaultError::WrongPassword),
        }
    }
}

/// The stored layout of a blob: the three work parameters as big-endian
/// 32-bit numbers, then salt, nonce and ciphertext.
pub open spec fn blob_layout(blob: BlobView) -> Seq<u8> {
    be32(blob.kdf_params.time_cost) + be32(blob.kdf_params.memory_kib) + be32(
        blob.kdf_params.parallelism,
    ) + blob.salt + blob.nonce + blob.ciphertext
}

/// The blob that a stored layout holds.
pub open spec fn layout_blob(layout: Seq<u8>) -> BlobView {
    BlobView {
        kdf_params: KdfParams {
            time_cost: from_be32(layout.subrange(0, 4)),
            memory_kib: from_be32(layout.subrange(4, 8)),
            parallelism: from_be32(layout.subrange(8, 12)),
        },
        salt: layout.subrange(12, 28),
        nonce: layout.subrange(28, 40),
        ciphertext: layout.subrange(40, 88),
    }
}

/// The text form of a blob: its stored layout in lower-case hexadecimal.
pub open spec fn blob_text(blob: BlobView) -> Seq<u8> {
    hex_encoded(blob_layout(blob))
}

/// What reading a text form gives.
pub open spec fn parsed_blob(text: Seq<u8>) -> Result<BlobView, VaultError> {
    if text.len() != TEXT_LENGTH || !is_hex_text(text) {
        Err(VaultError::MalformedBlob)
    } else {
        Ok(layout_blob(hex_decoded(text)))
    }
}

/// The outcome of making a blob, with the blob taken by what it holds.
pub open spec fn blob_outcome(made: Result<EncryptedKeyBlob, VaultError>) -> Result<
    BlobView,
    VaultError,
> {
    match made {
        Ok(blob) => Ok(blob@),
        Err(e) => Err(e),
    }
}

/// The outcome of unlocking, with the key taken by its bytes.
pub open spec fn unlock_outcome(made: Result<KeyMaterial, VaultError>) -> Result<
    Seq<u8>,
    VaultError,
> {
    match made {
        Ok(key) => Ok(key@),
        Err(e) => Err(e),
    }
}

/// The stored layout of a well-sized blob has 88 bytes and holds the blob.
pub proof fn lemma_layout_round_trip(blob: BlobView)
    requires
        blob.well_sized(),
    ensures
        blob_layout(blob).len() == LAYOUT_LENGTH,
        layout_blob(blob_layout(blob)) == blob,
{
    let layout = blob_layout(blob);
    lemma_be32_round_trip(blob.kdf_params.time_cost);
    lemma_be32_round_trip(blob.kdf_params.memory_kib);
    lemma_be32_round_trip(blob.kdf_params.parallelism);
    let head = be32(blob.kdf_params.time_cost) + be32(blob.kdf_params.memory_kib) + be32(
        blob.kdf_params.parallelism,
    );
    assert(head.len() == 12);
    assert(layout == head + blob.salt + blob.nonce + blob.ciphertext);
    assert(blob.salt.len() == 16 && blob.nonce.len() == 12 && blob.ciphertext.len() == 48);
    assert((head + blob.salt).len() == 28);
    assert((head + blob.salt + blob.nonce).len() == 40);
    assert(layout.len() == 88);
    assert(layout.subrange(0, 4) =~= be32(blob.kdf_params.time_cost));
    assert(layout.subrange(4, 8) =~= be32(blob.kdf_params.memory_kib));
    assert(layout.subrange(8, 12) =~= be32(blob.kdf_params.parallelism));
    assert(layout.subrange(12, 28) =~= blob.salt);
    assert(layout.subrange(28, 40) =~= blob.nonce);
    assert(layout.subrange(40, 88) =~= blob.ciphertext);
}

/// All four fields of a well-sized blob survive being written as text and
/// read back.
pub proof fn lemma_blob_text_round_trip(blob: BlobView)
    requires
        blob.well_sized(),
    ensures
        parsed_blob(blob_text(blob)) == Ok::<BlobView, VaultError>(blob),
{
    lemma_layout_round_trip(blob);
    lemma_hex_encoded_is_hex_text(blob_layout(blob));
    lemma_hex_round_trip(blob_layout(blob));
}

/// A blob made from one password does not open under another password whose
/// derived key the cipher rejects: the vault then reports a wrong password.
pub proof fn lemma_rejected_password(
    key: Seq<u8>,
    password: Seq<u8>,
    other: Seq<u8>,
    params: KdfParams,
    salt: Seq<u8>,
    nonce: Seq<u8>,
)
    requires
        password != other,
        kdf_accepts(params, other),
        aes_gcm_opened(
            derived_key(other, salt, params),
            nonce,
            aes_gcm_sealed(derived_key(password, salt, params), nonce, key),
        ) is None,
    ensures
        unlocked(sealed_blob(key, password, params, salt, nonce), other) == Err::<
            Seq<u8>,
            VaultError,
        >(VaultError::WrongPassword),
{
}

impl EncryptedKeyBlob {
    #[verifier::type_invariant]
    closed spec fn well_formed(self) -> bool {
        self@.well_sized()
    }

    pub closed spec fn view(&self) -> BlobView {
        BlobView {
            salt: self.salt@,
            nonce: self.nonce@,
            kdf_params: self.kdf_params,
            ciphertext: self.ciphertext@,
        }
    }

    /// Puts a blob together from its four fields.
    pub fn from_parts(
        salt: Vec<u8>,
        nonce: Vec<u8>,
        kdf_params: KdfParams,
        ciphertext: Vec<u8>,
    ) -> (made: Result<EncryptedKeyBlob, VaultError>)
        ensures
            match made {
                Ok(blob) => blob@ == (BlobView {
                    salt: salt@,
                    nonce: nonce@,
                    kdf_params,
                    ciphertext: ciphertext@,
                }) && blob@.well_sized(),
                Err(e) => e == VaultError::MalformedBlob && !(salt@.len() == SALT_LENGTH
                    && nonce@.len() == NONCE_LENGTH && ciphertext@.len() == SEALED_KEY_LENGTH),
            },
    {
        if salt.len() != SALT_LENGTH || nonce.len() != NONCE_LENGTH || ciphertext.len()
            != SEALED_KEY_LENGTH {
            return Err(VaultError::MalformedBlob);
        }
        Ok(EncryptedKeyBlob { salt, nonce, kdf_params, ciphertext })
    }

    pub fn salt(&self) -> (salt: &Vec<u8>)
        ensures
            salt@ == self@.salt,
            salt@.len() == SALT_LENGTH,
    {
        proof {
            use_type_invariant(self);
        }
        &self.salt
    }

    pub fn nonce(&self) -> (nonce: &Vec<u8>)
        ensures
            nonce@ == self@.nonce,
            nonce@.len() == NONCE_LENGTH,
    {
        proof {
            use_type_invariant(self);
        }
        &self.nonce
    }

    pub fn kdf_params(&self) -> (params: KdfParams)
        ensures
            params == self@.kdf_params,
    {
        self.kdf_params
    }

    pub fn ciphertext(&self) -> (ciphertext: &Vec<u8>)
        ensures
            ciphertext@ == self@.ciphertext,
            ciphertext@.len() == SEALED_KEY_LENGTH,
    {
        proof {
            use_type_invariant(self);
        }
        &self.ciphertext
    }

    /// Writes the blob as text.
    pub fn encode(&self) -> (text: String)
        ensures
            encode_utf8(text@) == blob_text(self@),
            parsed_blob(encode_utf8(text@)) == Ok::<BlobView, VaultError>(self@),
    {
        proof {
            use_type_invariant(self);
            lemma_layout_round_trip(self@);
            lemma_blob_text_round_trip(self@);
            lemma_hex_encoded_is_hex_text(blob_layout(self@));
        }
        let mut layout: Vec<u8> = Vec::new();
        push_be32(&mut layout, self.kdf_params.time_cost);
        push_be32(&mut layout, self.kdf_params.memory_kib);
        push_be32(&mut layout, self.kdf_params.parallelism);
        append(&mut layout, self.salt.as_slice());
        append(&mut layout, self.nonce.as_slice());
        append(&mut layout, self.ciphertext.as_slice());
        assert(layout@ =~= blob_layout(self@));
        let digits: Vec<u8> = encode_hex(layout.as_slice());
        ascii_to_string(digits)
    }

    /// Reads a blob from its text form.
    pub fn decode(text: &str) -> (made: Result<EncryptedKeyBlob, VaultError>)
        ensures
            blob_outcome(made) == parsed_blob(encode_utf8(text@)),
    {
        let digits: &[u8] = text.as_bytes();
        if digits.len() != TEXT_LENGTH {
            return Err(VaultError::MalformedBlob);
        }
        match decode_hex(digits) {
            None => Err(VaultError::MalformedBlob),
            Some(layout) => {
                assert(layout@.len() == LAYOUT_LENGTH);
                let all: &[u8] = layout.as_slice();
                let kdf_params = KdfParams {
                    time_cost: read_be32(slice_subrange(all, 0, 4)),
                    memory_kib: read_be32(slice_subrange(all, 4, 8)),
                    parallelism: read_be32(slice_subrange(all, 8, 12)),
                };
                let salt: Vec<u8> = slice_to_vec(slice_subrange(all, 12, 28));
                let nonce: Vec<u8> = slice_to_vec(slice_subrange(all, 28, 40));
                let ciphertext: Vec<u8> = slice_to_vec(slice_subrange(all, 40, 88));
                Ok(EncryptedKeyBlob { salt, nonce, kdf_params, ciphertext })
            },
        }
    }
}

/// Locks a key under a password with the given salt and nonce.
///
/// The salt must be drawn anew for every call, and so must the nonce:
/// `lock` does that.
pub fn lock_with(
    key: &KeyMaterial,
    password: &str,
    params: KdfParams,
    salt: &[u8],
    nonce: &[u8],
) -> (made: Result<EncryptedKeyBlob, VaultError>)
    ensures
        blob_outcome(made) == lock_outcome(key@, encode_utf8(password@), params, salt@, nonce@),
        made matches Ok(blob) ==> blob@.well_sized() && unlocked(blob@, encode_utf8(password@))
            == Ok::<Seq<u8>, VaultError>(key@),
{
    if salt.len() != SALT_LENGTH || nonce.len() != NONCE_LENGTH {
        return Err(VaultError::MalformedBlob);
    }
    let secret: &[u8] = password.as_bytes();
    if !params.is_valid() || secret.len() > MAX_INPUT_LENGTH {
        return Err(VaultError::KdfFailure);
    }
    let mut cipher_key: Vec<u8> = match stretch_password(secret, salt, params) {
        Some(derived) => derived,
        None => {
            return Err(VaultError::KdfFailure);
        },
    };
    let sealed: Option<Vec<u8>> = seal(cipher_key.as_slice(), nonce, key.as_bytes());
    wipe(&mut cipher_key);
    match sealed {
        Some(ciphertext) => Ok(
            EncryptedKeyBlob {
                salt: slice_to_vec(salt),
                nonce: slice_to_vec(nonce),
                kdf_params: params,
                ciphertext,
            },
        ),
        None => Err(VaultError::KdfFailure),
    }
}

/// Locks a key under a password, with a salt and a nonce drawn from the
/// operating system for this call.
pub fn lock(key: &KeyMaterial, password: &str, params: KdfParams) -> (made: Result<
    EncryptedKeyBlob,
    WalletError,
>)
    ensures
        match made {
            Ok(blob) => kdf_accepts(params, encode_utf8(password@)) && blob@.well_sized() && blob@
                == sealed_blob(key@, encode_utf8(password@), params, blob@.salt, blob@.nonce)
                && unlocked(blob@, encode_utf8(password@)) == Ok::<Seq<u8>, VaultError>(key@),
            Err(e) => if kdf_accepts(params, encode_utf8(password@)) {
                e == WalletError::Key(KeyError::EntropyUnavailable)
            } else {
                e == WalletError::Vault(VaultError::KdfFailure)
            },
        },
{
    if !params.is_valid() || password.as_bytes().len() > MAX_INPUT_LENGTH {
        return Err(WalletError::Vault(VaultError::KdfFailure));
    }
    let salt: Vec<u8> = match random_bytes(SALT_LENGTH) {
        Some(bytes) => bytes,
        None => {
            return Err(WalletError::Key(KeyError::EntropyUnavailable));
        },
    };
    let nonce: Vec<u8> = match random_bytes(NONCE_LENGTH) {
        Some(bytes) => bytes,
        None => {
            return Err(WalletError::Key(KeyError::EntropyUnavailable));
        },
    };
    match lock_with(key, password, params, salt.as_slice(), nonce.as_slice()) {
        Ok(blob) => Ok(blob),
        Err(e) => Err(WalletError::Vault(e)),
    }
}

/// Unlocks a blob with a password.
pub fn unlock(blob: &EncryptedKeyBlob, password: &str) -> (made: Result<KeyMaterial, VaultError>)
    ensures
        unlock_outcome(made) == unlocked(blob@, encode_utf8(password@)),
{
    proof {
        use_type_invariant(blob);
    }
    let secret: &[u8] = password.as_bytes();
    if !blob.kdf_params.is_valid() || secret.len() > MAX_INPUT_LENGTH {
        return Err(VaultError::KdfFailure);
    }
    let mut cipher_key: Vec<u8> = match stretch_password(
        secret,
        blob.salt.as_slice(),
        blob.kdf_params,
    ) {
        Some(derived) => derived,
        None => {
            return Err(VaultError::KdfFailure);
        },
    };
    let opened: Option<Vec<u8>> = open(
        cipher_key.as_slice(),
        blob.nonce.as_slice(),
        blob.ciphertext.as_slice(),
    );
    wipe(&mut cipher_key);
    match opened {
        None => Err(VaultError::WrongPassword),
        Some(mut plaintext) => {
            let made: Result<KeyMaterial, KeyError> = KeyMaterial::from_bytes(
                plaintext.as_slice(),
            );
            wipe(&mut plaintext);
            match made {
                Ok(key) => Ok(key),
                Err(_) => Err(VaultError::WrongPassword),
            }
        },
    }
}

} // verus!
