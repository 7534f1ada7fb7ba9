//! Locking and unlocking at the text boundary: a key as hexadecimal digits
//! in, the encrypted blob as text out, and back.

use vstd::prelude::*;
use vstd::utf8::encode_utf8;
use crate::errors::{KeyError, VaultError, WalletError};
use crate::hex::hex_encoded;
use crate::kdf::KdfParams;
use crate::key::{parsed_key, KeyMaterial};
use crate::vault::{kdf_accepts, lock, parsed_blob, sealed_blob, unlock, unlocked, EncryptedKeyBlob};

verus! {

/// The work parameters that `encrypt_private_key` locks with.
pub open spec fn default_params() -> KdfParams {
    KdfParams { time_cost: 2, memory_kib: 19_456, parallelism: 1 }
}

/// What decrypting a text form gives: the key as 64 lower-case hexadecimal
/// digits, or the failure of reading the blob or of unlocking it.
pub open spec fn decrypted_text(encrypted: Seq<u8>, password: Seq<u8>) -> Result<
    Seq<u8>,
    WalletError,
> {
    match parsed_blob(encrypted) {
        Err(e) => Err(WalletError::Vault(e)),
        Ok(blob) => match unlocked(blob, password) {
            Err(e) => Err(WalletError::Vault(e)),
            Ok(key) => Ok(hex_encoded(key)),
        },
    }
}

/// The outcome of an operation that gives text, with the text taken by its
/// bytes.
pub open spec fn text_outcome(made: Result<String, WalletError>) -> Result<Seq<u8>, WalletError> {
    match made {
        Ok(text) => Ok(encode_utf8(text@)),
        Err(e) => Err(e),
    }
}

/// Encrypts a hexadecimal private key under a password and returns the blob
/// as text.
///
/// The text reads back as a blob that seals the parsed key under the
/// password with the default work parameters, and decrypting it with the
/// same password gives the key back in lower case.
pub fn encrypt_private_key(private_key: &str, password: &str) -> (made: Result<
    String,
    WalletError,
>)
    ensures
        match made {
            Ok(text) => {
                &&& parsed_key(encode_utf8(private_key@)) matches Ok(key)
                &&& parsed_blob(encode_utf8(text@)) matches Ok(blob)
                &&& blob.well_sized()
                &&& blob == sealed_blob(
                    key,
                    encode_utf8(password@),
                    default_params(),
                    blob.salt,
                    blob.nonce,
                )
                &&& decrypted_text(encode_utf8(text@), encode_utf8(password@)) == Ok::<
                    Seq<u8>,
                    WalletError,
                >(hex_encoded(key))
            },
            Err(e) => match parsed_key(encode_utf8(private_key@)) {
                Err(k) => e == WalletError::Key(k),
                Ok(_) => if kdf_accepts(default_params(), encode_utf8(password@)) {
                    e == WalletError::Key(KeyError::EntropyUnavailable)
                } else {
                    e == WalletError::Vault(VaultError::KdfFailure)
                },
            },
        },
{
    let key: KeyMaterial = match KeyMaterial::import_from_encoded(private_key) {
        Ok(key) => key,
        Err(e) => {
            return Err(WalletError::Key(e));
        },
    };
    let blob: EncryptedKeyBlob = match lock(&key, password, KdfParams::recommended()) {
        Ok(blob) => blob,
        Err(e) => {
            return Err(e);
        },
    };
    Ok(blob.encode())
}

/// Decrypts the text form of a blob with a password and returns the key as
/// 64 lower-case hexadecimal digits.
pub fn decrypt_private_key(encrypted_key: &str, password: &str) -> (made: Result<
    String,
    WalletError,
>)
    ensures
        text_outcome(made) == decrypted_text(
            encode_utf8(encrypted_key@),
            encode_utf8(password@),
        ),
{
    let blob: EncryptedKeyBlob = match EncryptedKeyBlob::decode(encrypted_key) {
        Ok(blob) => blob,
        Err(e) => {
            return Err(WalletError::Vault(e));
        },
    };
    let key: KeyMaterial = match unlock(&blob, password) {
        Ok(key) => key,
        Err(e) => {
            return Err(WalletError::Vault(e));
        },
    };
    Ok(key.to_hex())
}

} // verus!
