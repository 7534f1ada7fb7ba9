//! Secret key material.
//!
//! A key is 32 bytes that spell a valid scalar of the group. It is made by
//! parsing, by generation or by unlocking a blob, it cannot be copied or
//! printed, and its bytes are overwritten with zeros when it goes out of
//! scope.

use vstd::prelude::*;
use vstd::slice::slice_subrange;
use vstd::utf8::encode_utf8;
use crate::bytes::wipe;
use crate::entropy::random_bytes;
use crate::errors::KeyError;
use crate::hex::{
    decode_hex, encode_hex, hex_decoded, hex_encoded, is_hex_text, lemma_hex_encoded_is_hex_text,
};
use crate::scalar::{is_valid_scalar, scalar_in_range};
use crate::text::ascii_to_string;

verus! {

/// How often `generate` draws before it gives up on the source.
pub const GENERATE_ATTEMPTS: u32 = 8;

/// Thirty-two bytes that are wiped when they are dropped.
pub struct SecretBytes {
    bytes: [u8; 32],
}

impl SecretBytes {
    pub closed spec fn view(&self) -> Seq<u8> {
        self.bytes@
    }

    /// Overwrites the bytes with zeros.
    fn erase(&mut self)
        ensures
            forall|i: int| 0 <= i < 32 ==> final(self)@[i] == 0u8,
        opens_invariants none
        no_unwind
    {
        self.bytes = [
            0u8, 0u8, 0u8, 0u8, 0u8, 0u8, 0u8, 0u8, 0u8, 0u8, 0u8, 0u8, 0u8, 0u8, 0u8, 0u8,
            0u8, 0u8, 0u8, 0u8, 0u8, 0u8, 0u8, 0u8, 0u8, 0u8, 0u8, 0u8, 0u8, 0u8, 0u8, 0u8,
        ];
    }
}

impl Drop for SecretBytes {
    fn drop(&mut self)
        opens_invariants none
        no_unwind
    {
        self.erase();
    }
}

/// A secret key of the group.
pub struct KeyMaterial {
    secret: SecretBytes,
}

/// The text without a leading `0x` or `0X`, if it has one.
pub open spec fn without_prefix(text: Seq<u8>) -> Seq<u8> {
    if text.len() >= 2 && text[0] == 0x30 && (text[1] == 0x78 || text[1] == 0x58) {
        text.skip(2)
    } else {
        text
    }
}

/// What parsing an encoded key gives: the 32 bytes that 64 hexadecimal
/// digits spell, if they are a valid scalar.
pub open spec fn parsed_key(text: Seq<u8>) -> Result<Seq<u8>, KeyError> {
    let digits = without_prefix(text);
    if digits.len() != 64 || !is_hex_text(digits) {
        Err(KeyError::MalformedKey)
    } else if !is_valid_scalar(hex_decoded(digits)) {
        Err(KeyError::InvalidKeyValue)
    } else {
        Ok(hex_decoded(digits))
    }
}

/// What raw bytes give as a key.
pub open spec fn checked_key(bytes: Seq<u8>) -> Result<Seq<u8>, KeyError> {
    if bytes.len() != 32 {
        Err(KeyError::MalformedKey)
    } else if !is_valid_scalar(bytes) {
        Err(KeyError::InvalidKeyValue)
    } else {
        Ok(bytes)
    }
}

/// The outcome of making a key, with the key taken by its bytes.
pub open spec fn key_outcome(made: Result<KeyMaterial, KeyError>) -> Result<Seq<u8>, KeyError> {
    match made {
        Ok(key) => Ok(key@),
        Err(e) => Err(e),
    }
}

impl KeyMaterial {
    #[verifier::type_invariant]
    closed spec fn well_formed(self) -> bool {
        is_valid_scalar(self.secret@)
    }

    /// The 32 bytes of the key, most significant first.
    pub closed spec fn view(&self) -> Seq<u8> {
        self.secret@
    }

    /// Takes 32 bytes as a key if they spell a valid scalar.
    pub fn from_bytes(bytes: &[u8]) -> (made: Result<KeyMaterial, KeyError>)
        ensures
            key_outcome(made) == checked_key(bytes@),
    {
        if bytes.len() != 32 {
            return Err(KeyError::MalformedKey);
        }
        if !scalar_in_range(bytes) {
            return Err(KeyError::InvalidKeyValue);
        }
        let mut copy: [u8; 32] = [0u8; 32];
        let mut i: usize = 0;
        while i < 32
            invariant
                i <= 32,
                bytes@.len() == 32,
                forall|j: int| 0 <= j < i ==> copy@[j] == bytes@[j],
            decreases 32 - i,
        {
            copy[i] = bytes[i];
            i = i + 1;
        }
        assert(copy@ =~= bytes@);
        Ok(KeyMaterial { secret: SecretBytes { bytes: copy } })
    }

    /// Parses a key from 64 hexadecimal digits, with or without a leading
    /// `0x` or `0X`.
    pub fn import_from_encoded(encoded: &str) -> (made: Result<KeyMaterial, KeyError>)
        ensures
            key_outcome(made) == parsed_key(encode_utf8(encoded@)),
    {
        let text: &[u8] = encoded.as_bytes();
        let n: usize = text.len();
        let digits: &[u8] = if n >= 2 && text[0] == 0x30 && (text[1] == 0x78 || text[1] == 0x58) {
            slice_subrange(text, 2, n)
        } else {
            text
        };
        assert(digits@ =~= without_prefix(text@));
        if digits.len() != 64 {
            return Err(KeyError::MalformedKey);
        }
        match decode_hex(digits) {
            None => Err(KeyError::MalformedKey),
            Some(mut bytes) => {
                assert(bytes@.len() == 32);
                let made: Result<KeyMaterial, KeyError> = KeyMaterial::from_bytes(
                    bytes.as_slice(),
                );
                wipe(&mut bytes);
                made
            },
        }
    }

    /// Draws a fresh key from the operating system's randomness.
    ///
    /// A draw that is no valid scalar is thrown away and repeated; a source
    /// that fails, or that yields no valid scalar in `GENERATE_ATTEMPTS`
    /// draws, is reported as unavailable.
    pub fn generate() -> (made: Result<KeyMaterial, KeyError>)
        ensures
            made matches Err(e) ==> e == KeyError::EntropyUnavailable,
            made matches Ok(key) ==> is_valid_scalar(key@),
    {
        let mut attempt: u32 = 0;
        while attempt < GENERATE_ATTEMPTS
            invariant
                attempt <= GENERATE_ATTEMPTS,
            decreases GENERATE_ATTEMPTS - attempt,
        {
            match random_bytes(32) {
                None => {
                    return Err(KeyError::EntropyUnavailable);
                },
                Some(mut bytes) => {
                    let made: Result<KeyMaterial, KeyError> = KeyMaterial::from_bytes(
                        bytes.as_slice(),
                    );
                    wipe(&mut bytes);
                    match made {
                        Ok(key) => {
                            return Ok(key);
                        },
                        Err(_) => {},
                    }
                },
            }
            attempt = attempt + 1;
        }
        Err(KeyError::EntropyUnavailable)
    }

    /// The bytes of the key, for the primitives that work on it.
    pub(crate) fn as_bytes(&self) -> (bytes: &[u8])
        ensures
            bytes@ == self@,
            is_valid_scalar(bytes@),
    {
        proof {
            use_type_invariant(self);
        }
        self.secret.bytes.as_slice()
    }

    /// Whether two keys hold the same bytes. Every byte is read whatever
    /// the bytes hold.
    pub fn same_key(&self, other: &KeyMaterial) -> (same: bool)
        ensures
            same == (self@ == other@),
    {
        let a: &[u8] = self.as_bytes();
        let b: &[u8] = other.as_bytes();
        let mut same: bool = true;
        let mut i: usize = 0;
        assert(a@.take(0) =~= b@.take(0));
        while i < 32
            invariant
                i <= 32,
                a@.len() == 32,
                b@.len() == 32,
                same <==> a@.take(i as int) == b@.take(i as int),
            decreases 32 - i,
        {
            if a[i] != b[i] {
                same = false;
            }
            proof {
                let a0 = a@.take(i as int);
                let b0 = b@.take(i as int);
                let a1 = a@.take(i + 1);
                let b1 = b@.take(i + 1);
                assert(a1.drop_last() =~= a0 && b1.drop_last() =~= b0);
                assert(a1.last() == a@[i as int] && b1.last() == b@[i as int]);
                if a0 == b0 && a@[i as int] == b@[i as int] {
                    assert(a1 =~= b1);
                }
            }
            i = i + 1;
        }
        proof {
            assert(a@.take(32) =~= a@ && b@.take(32) =~= b@);
        }
        same
    }

    /// The key as 64 lower-case hexadecimal digits.
    pub fn to_hex(&self) -> (text: String)
        ensures
            encode_utf8(text@) == hex_encoded(self@),
            parsed_key(encode_utf8(text@)) == Ok::<Seq<u8>, KeyError>(self@),
    {
        let bytes: &[u8] = self.as_bytes();
        let digits: Vec<u8> = encode_hex(bytes);
        proof {
            lemma_hex_encoded_is_hex_text(bytes@);
            lemma_encoded_key_parses(bytes@);
        }
        ascii_to_string(digits)
    }
}

/// Sixty-four lower-case digits never begin with a prefix, and parse to the
/// key that they were written from.
pub proof fn lemma_encoded_key_parses(key: Seq<u8>)
    requires
        is_valid_scalar(key),
    ensures
        parsed_key(hex_encoded(key)) == Ok::<Seq<u8>, KeyError>(key),
{
    crate::hex::lemma_hex_round_trip(key);
    let text = hex_encoded(key);
    assert(text.len() == 64);
    assert(text[1] != 0x58 && text[1] != 0x78) by {
        assert(key[0] % 16 < 16);
    }
    assert(without_prefix(text) == text);
}

} // verus!
